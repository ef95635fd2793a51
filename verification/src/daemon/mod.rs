//! The node daemon: the KVM device plugin, and the image cache it fills.

pub mod device_plugin;
pub mod health;
pub mod marker;
pub mod pull;
pub mod watch;
