//! Control logic of a live audio filter: the tuning of a low-pass / high-pass
//! filter pair, the accumulation of samples into transform windows, the
//! lifecycle of a streaming session and the parsing of control commands.
//!
//! Frequencies are whole hertz. Sample values are generic: the arithmetic on
//! them (the biquad recurrence, the Fourier transform) is done by the caller.
use vstd::prelude::*;

pub mod control;
pub mod events;
pub mod pcm;
pub mod session;
pub mod spectrum;
pub mod tuning;
