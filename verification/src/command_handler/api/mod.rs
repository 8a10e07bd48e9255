//! Decisions of the HTTP API commands.

pub mod definition;
