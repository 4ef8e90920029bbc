//! Limits of a connection and the side it is run from.

use vstd::prelude::*;

verus! {

/// Which end of the connection this side plays.
#[derive(Clone, Copy, Debug, PartialEq, Eq)]
pub enum Role {
    /// The accepting side.
    Server,
    /// The connecting side.
    Client,
}

/// Limits applied to one connection. `None` lifts a limit.
#[derive(Clone, Copy, Debug, PartialEq, Eq)]
pub struct WebSocketConfig {
    /// How many outbound messages may be queued before the sender is held
    /// back.
    pub max_send_queue: Option<usize>,
    /// Largest message accepted, in bytes.
    pub max_message_size: Option<usize>,
    /// Largest frame payload accepted, in bytes.
    pub max_frame_size: Option<usize>,
    /// Whether a server accepts frames a client did not mask.
    pub accept_unmasked_frames: bool,
}

/// Default limit on a message: 64 MiB.
pub const DEFAULT_MAX_MESSAGE_SIZE: usize = 67108864;

/// Default limit on a frame: 16 MiB.
pub const DEFAULT_MAX_FRAME_SIZE: usize = 16777216;

/// `WebSocketConfig::default()` of tungstenite, field by field. The contract
/// claims the values its source gives: an unbounded send queue, 64 MiB per
/// message, 16 MiB per frame, unmasked frames refused.
#[verifier::external_body]
fn framer_default() -> (config: WebSocketConfig)
    ensures
        config == WebSocketConfig::spec_default(),
{
    let config = tokio_tungstenite::tungstenite::protocol::WebSocketConfig::default();
    WebSocketConfig {
        max_send_queue: config.max_send_queue,
        max_message_size: config.max_message_size,
        max_frame_size: config.max_frame_size,
        accept_unmasked_frames: config.accept_unmasked_frames,
    }
}

impl WebSocketConfig {
    /// The limits a connection runs with when none are chosen.
    pub open spec fn spec_default() -> WebSocketConfig {
        WebSocketConfig {
            max_send_queue: None,
            max_message_size: Some(DEFAULT_MAX_MESSAGE_SIZE),
            max_frame_size: Some(DEFAULT_MAX_FRAME_SIZE),
            accept_unmasked_frames: false,
        }
    }
}

impl Default for WebSocketConfig {
    /// The framer's own defaults.
    fn default() -> (config: WebSocketConfig)
        ensures
            config == WebSocketConfig::spec_default(),
    {
        framer_default()
    }
}

} // verus!
