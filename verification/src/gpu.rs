//! The display peripheral.

pub mod gpu;
