//! The controller: what it applies for a sandbox, and what it records of one.

pub mod conditions;
pub mod config;
pub mod laws;
pub mod leader;
pub mod object_laws;
pub mod observe;
pub mod plan;
pub mod pod;
pub mod reconcile;
pub mod record_laws;
pub mod resize;
pub mod resize_laws;
pub mod service;
