//! WebSocket support: handshake validation, configuration and messages.

pub mod ascii;
pub mod config;
pub mod handshake;
pub mod header;
pub mod key;
pub mod message;
pub mod stream;

pub use crate::ws::config::{Role, WebSocketConfig};
pub use crate::ws::handshake::{
    MissingConnectionUpgrade, PendingUpgrade, Rejection, Request, Response, WsHandler,
};
pub use crate::ws::header::Headers;
pub use crate::ws::message::Message;
pub use crate::ws::stream::StreamError;
