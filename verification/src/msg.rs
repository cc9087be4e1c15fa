//! Concrete wire messages.

pub mod version;
