//! Application build support.

pub mod build;
