//! The bridge sidecar: where the sandbox's relay socket is, and how bytes pass
//! between it and a WebSocket.

pub mod proxy;
pub mod socket;
