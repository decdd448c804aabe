//! A line filter for shell pipelines: input lines pass through to the output,
//! and the two user signals inject marker lines or, in discard mode, set
//! the flag that lets input through.
//!
//! The library holds the decisions and the output format; the program around
//! it owns the threads, the channel, the signal subscription and the streams.

pub mod flow;
pub mod output;
pub mod pipeline;
pub mod laws;

pub use flow::{forward_line, marker, on_signal, SignalAction, UserSignal};
pub use output::render;
pub use pipeline::{run, Event};
