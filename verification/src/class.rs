//! The Great Communications Protocol classes this firmware implements.

pub mod firmware;
pub mod greatdancer;
