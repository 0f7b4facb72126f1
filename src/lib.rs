//! Job orchestration for a video-to-animated-image converter.
//!
//! The conversion engine, the windowing toolkit and the file dialogs live
//! outside this crate. What is here is the part that decides: the worker
//! orchestrator, which owns at most one conversion job at a time and relays
//! its messages, and the job controller, which gates submissions and turns
//! relayed messages into the state that the user interface shows.

pub mod job;
pub mod worker;
pub mod controller;
pub mod numeric_input;
