//! WebSocket upgrade handshake and message model, with request logging helpers.

pub mod logging;
pub mod ws;
