//! The pitch shifter's state: a phase accumulator and one held sample.
//!
//! Per sample the phase grows by the pitch factor; when it reaches 1.0 it
//! is decremented by exactly 1.0 and the held sample is replaced by the
//! current input.  The output is the held sample plus the input/held
//! difference weighted by the corrected phase — a crude two-point
//! variable-rate resampler.

use vstd::prelude::*;
use crate::fbits::{ONE_BITS, fp_add, fp_sub, fp_mul, fp_ge};

verus! {

/// Phase accumulator and held sample, both binary32 bit patterns.
#[derive(Clone, Copy, Debug, PartialEq, Eq, Structural)]
pub struct PitchShiftState {
    pub phase: u32,
    pub previous_sample: u32,
}

impl PitchShiftState {
    /// Fresh state: phase and held sample both positive zero.
    pub fn new() -> (st: PitchShiftState)
        ensures
            st.phase == 0u32,
            st.previous_sample == 0u32,
    {
        PitchShiftState { phase: 0u32, previous_sample: 0u32 }
    }
}

/// The state after consuming input word `x`: phase advanced by the pitch
/// factor, then corrected by 1.0 — and the held sample replaced by `x` —
/// exactly when the advanced phase compares at or above 1.0.
pub open spec fn pitch_step_state(st: PitchShiftState, factor: u32, x: u32) -> PitchShiftState {
    let phase1 = fp_add(st.phase, factor);
    if fp_ge(phase1, ONE_BITS) {
        PitchShiftState { phase: fp_sub(phase1, ONE_BITS), previous_sample: x }
    } else {
        PitchShiftState { phase: phase1, previous_sample: st.previous_sample }
    }
}

/// The word one step outputs: with the stepped state's held sample `p` and
/// phase `w`, the linear interpolation `p + (x - p) * w`.
pub open spec fn pitch_step_out(st: PitchShiftState, factor: u32, x: u32) -> u32 {
    let stepped = pitch_step_state(st, factor, x);
    fp_add(stepped.previous_sample, fp_mul(fp_sub(x, stepped.previous_sample), stepped.phase))
}

/// The state after the first `n` samples of a block.
pub open spec fn pitch_state_after(st0: PitchShiftState, factor: u32, inp: Seq<u32>, n: int) -> PitchShiftState
    decreases n,
{
    if n <= 0 {
        st0
    } else {
        pitch_step_state(pitch_state_after(st0, factor, inp, n - 1), factor, inp[n - 1])
    }
}

/// The word the pitch shifter writes at index `i` of a block.
pub open spec fn pitch_out_at(st0: PitchShiftState, factor: u32, inp: Seq<u32>, i: int) -> u32 {
    pitch_step_out(pitch_state_after(st0, factor, inp, i), factor, inp[i])
}

} // verus!
