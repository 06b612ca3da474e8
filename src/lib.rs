//! Start-up sequencing and event handling for a single-window graphics engine.
//!
//! The library decides; the program around it performs the windowing and
//! graphics calls that each decision asks for and reports what came back.

pub mod any;
pub mod text;
pub mod errs;
pub mod logs;
pub mod window;
pub mod functions;
pub mod frame;
pub mod bootstrap;
