//! Request building and reply handling for a small desktop chat client.
//!
//! The crate holds the decisions of the client and none of its I/O: how a
//! chat-completion call is put together, what a reply from the endpoint
//! means, and how the two text buffers of the window change when the user
//! presses a button or a call resolves.

pub mod client;
pub mod controller;
pub mod digits;
pub mod message;
pub mod reply;
pub mod wire;
