//! Scheduling and timing core of a handheld console emulator.
//!
//! The crate decides, step by step, which hardware unit acts next and how
//! interrupt requests, frame completion and halt/resume propagate between
//! the units. The units themselves are supplied by the embedder through the
//! traits in [`devices`]; what a step and a frame do is stated over what
//! those traits name, in [`gba`], and what follows from it in [`laws`].

pub mod breakpoints;
pub mod devices;
pub mod frame;
pub mod gba;
pub mod laws;
pub mod step;
