//! The gateway: the REST and WebSocket face of the operator for cloud clients.

pub mod auth;
pub mod convert;
pub mod create;
pub mod error;
pub mod exec;
pub mod handlers;
pub mod laws;
pub mod limits;
pub mod logs;
pub mod resolve;
pub mod wire;
