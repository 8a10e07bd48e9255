//! Golem Cloud command handlers.

pub mod project;
