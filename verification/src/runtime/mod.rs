//! The runtime container: it boots the sandbox and stays with it until it stops.

pub mod boot;
pub mod cache_wait;
pub mod console_log;
pub mod laws;
pub mod net;
pub mod quantity;
