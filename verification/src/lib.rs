//! Verified core of the microsandbox operator.

pub mod bridge;
pub mod cache;
pub mod collections;
pub mod controller;
pub mod daemon;
pub mod digest;
pub mod gateway;
pub mod json;
pub mod k8s;
pub mod launch;
pub mod manifests;
pub mod names;
pub mod paths;
pub mod runtime;
pub mod sandbox;
pub mod text;
pub mod time;
