//! The model context protocol server: the tools it offers and how their results are formed.

pub mod handler;
pub mod tools;
