//! Decode/dispatch engine and reentrant client handle for a multiplexed,
//! tagged-message gateway protocol.
//!
//! Inbound: bytes -> [`frame::FrameDecoder`] -> fields -> [`event::interpret`]
//! -> [`client::Client::poll`] -> [`wrapper::dispatch`] -> a [`wrapper::Wrapper`].
//! Outbound: request operations on [`client::Client`] queue raw messages that
//! the transport drains in order.

pub mod text;
pub mod frame;
pub mod event;
pub mod client;
pub mod wrapper;
