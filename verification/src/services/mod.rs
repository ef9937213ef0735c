//! Handles over the platform's native services.

pub mod ndsp;
pub mod reference;

pub use reference::{ServiceCounter, ServiceError, ServiceReference};
