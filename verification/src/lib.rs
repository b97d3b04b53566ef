//! A real-time audio effects engine over fixed-size sample buffers.
//!
//! The engine owns an input region and an output region of equal length,
//! and applies one effect per processing block: a crude pitch shifter, a
//! broadband bass boost with soft clipping, a seven-band equalizer built
//! from cascaded biquad filters, and a lo-fi bit crusher with
//! sample-and-hold decimation.  Samples are carried as the bit patterns of
//! IEEE 754 binary32 values, so every contract states the exact words an
//! effect writes.

pub mod fbits;
pub mod biquad;
pub mod eq;
pub mod buffers;
pub mod pitch;
pub mod engine;

use vstd::prelude::*;

verus! {

/// The error an effect operation can report to the caller.
#[derive(Clone, Copy, Debug, PartialEq, Eq, Structural)]
pub enum AudioError {
    /// An argument had the wrong shape, such as a gain sequence whose
    /// length is not the number of equalizer bands.
    InvalidArgument,
}

} // verus!
