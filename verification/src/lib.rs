//! A safety layer over a null-terminated, JSON-speaking native messaging
//! client.
//!
//! The native engine itself is reached only through a thin foreign-function
//! edge that lives outside this library. Everything the wrapper decides --
//! which outbound texts are representable on the wire, how inbound bytes are
//! decoded, when the shared native reference may be destroyed, how typed
//! payloads are framed and classified, and which poll outcomes a consumer
//! sees -- is implemented and verified here, over plain values.

pub mod client;
pub mod codec;
pub mod error;
pub mod handle;
pub mod iter;
pub mod typed;
