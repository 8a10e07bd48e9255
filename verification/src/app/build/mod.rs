//! Build steps of an application.

pub mod task_result_marker;
