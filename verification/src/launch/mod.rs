//! What msb is told to launch a sandbox.

pub mod config;
pub mod laws;
pub mod network;
pub mod secrets;
pub mod wire;
