//! The controller event pipeline.

pub mod channel;
pub mod controller;
pub mod listener;
pub mod queue;
