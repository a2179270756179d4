//! Helpers for the configuration layer.

pub mod serde_duration;
