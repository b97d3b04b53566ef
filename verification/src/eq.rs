//! The seven-band filter bank of the equalizer.
//!
//! Seven biquad cells in a fixed role order — low shelf, five peaking
//! bands, high shelf — processed strictly in that order for every sample.
//! The order is load-bearing: IIR stages do not commute, so the contract
//! pins the exact chaining.

use vstd::prelude::*;
use crate::biquad::{BiquadFilter, biquad_out, biquad_step, peaking_design, shelf_design};
use crate::fbits::{TWO_BITS, PI_BITS, fp_mul, fp_div, mul_words, div_words};

verus! {

/// Bit pattern of 100.0, the low shelf's corner frequency in Hz.
pub const LOW_SHELF_FREQ_BITS: u32 = 0x42C8_0000;
/// Bit pattern of 250.0, the first peaking band's center frequency in Hz.
pub const BAND1_FREQ_BITS: u32 = 0x437A_0000;
/// Bit pattern of 500.0, the second peaking band's center frequency in Hz.
pub const BAND2_FREQ_BITS: u32 = 0x43FA_0000;
/// Bit pattern of 1000.0, the third peaking band's center frequency in Hz.
pub const BAND3_FREQ_BITS: u32 = 0x447A_0000;
/// Bit pattern of 2000.0, the fourth peaking band's center frequency in Hz.
pub const BAND4_FREQ_BITS: u32 = 0x44FA_0000;
/// Bit pattern of 4000.0, the fifth peaking band's center frequency in Hz.
pub const BAND5_FREQ_BITS: u32 = 0x457A_0000;
/// Bit pattern of 8000.0, the high shelf's corner frequency in Hz.
pub const HIGH_SHELF_FREQ_BITS: u32 = 0x45FA_0000;

/// The angular frequency word of a band: `2*pi*freq/sample_rate` in
/// binary32, evaluated left to right.
pub open spec fn band_angle_spec(freq: u32, sample_rate: u32) -> u32 {
    fp_div(fp_mul(fp_mul(TWO_BITS, PI_BITS), freq), sample_rate)
}

/// The angular frequency of a band, whose sine and cosine the host
/// evaluates for the filter designs.
pub fn band_angle(freq: u32, sample_rate: u32) -> (w: u32)
    ensures
        w == band_angle_spec(freq, sample_rate),
{
    div_words(mul_words(mul_words(TWO_BITS, PI_BITS), freq), sample_rate)
}

/// The already-computed design words of one peaking band: the sine and
/// cosine of its angular frequency, its quality factor and its linear gain.
#[derive(Clone, Copy, Debug, PartialEq, Eq, Structural)]
pub struct PeakWords {
    pub sin_w: u32,
    pub cos_w: u32,
    pub q: u32,
    pub gain: u32,
}

/// The already-computed design words of one shelf: the sine and cosine of
/// its corner frequency, its linear gain and the word of `sqrt(gain)`.
#[derive(Clone, Copy, Debug, PartialEq, Eq, Structural)]
pub struct ShelfWords {
    pub sin_w: u32,
    pub cos_w: u32,
    pub gain: u32,
    pub beta: u32,
}

/// The design of the whole bank, in role order.
#[derive(Clone, Copy, Debug, PartialEq, Eq, Structural)]
pub struct EqDesign {
    pub low_shelf: ShelfWords,
    pub band1: PeakWords,
    pub band2: PeakWords,
    pub band3: PeakWords,
    pub band4: PeakWords,
    pub band5: PeakWords,
    pub high_shelf: ShelfWords,
}

/// Seven biquad cells in role order.
#[derive(Clone, Copy, Debug, PartialEq, Eq, Structural)]
pub struct EqState {
    pub low_shelf: BiquadFilter,
    pub band1: BiquadFilter,
    pub band2: BiquadFilter,
    pub band3: BiquadFilter,
    pub band4: BiquadFilter,
    pub band5: BiquadFilter,
    pub high_shelf: BiquadFilter,
}

/// The bank a design builds: each cell from its design words, history all
/// zero.
pub open spec fn eq_from_design(d: EqDesign) -> EqState {
    EqState {
        low_shelf: shelf_design(d.low_shelf.sin_w, d.low_shelf.cos_w, d.low_shelf.gain, d.low_shelf.beta),
        band1: peaking_design(d.band1.sin_w, d.band1.cos_w, d.band1.q, d.band1.gain),
        band2: peaking_design(d.band2.sin_w, d.band2.cos_w, d.band2.q, d.band2.gain),
        band3: peaking_design(d.band3.sin_w, d.band3.cos_w, d.band3.q, d.band3.gain),
        band4: peaking_design(d.band4.sin_w, d.band4.cos_w, d.band4.q, d.band4.gain),
        band5: peaking_design(d.band5.sin_w, d.band5.cos_w, d.band5.q, d.band5.gain),
        high_shelf: shelf_design(d.high_shelf.sin_w, d.high_shelf.cos_w, d.high_shelf.gain, d.high_shelf.beta),
    }
}

/// The word the bank outputs for input `x`: the sample run through the
/// seven cells in role order, each cell fed the previous cell's output.
pub open spec fn eq_out(e: EqState, x: u32) -> u32 {
    let s1 = biquad_out(e.low_shelf, x);
    let s2 = biquad_out(e.band1, s1);
    let s3 = biquad_out(e.band2, s2);
    let s4 = biquad_out(e.band3, s3);
    let s5 = biquad_out(e.band4, s4);
    let s6 = biquad_out(e.band5, s5);
    biquad_out(e.high_shelf, s6)
}

/// The bank after one sample: every cell stepped, in role order.
pub open spec fn eq_step(e: EqState, x: u32) -> EqState {
    let s1 = biquad_out(e.low_shelf, x);
    let s2 = biquad_out(e.band1, s1);
    let s3 = biquad_out(e.band2, s2);
    let s4 = biquad_out(e.band3, s3);
    let s5 = biquad_out(e.band4, s4);
    let s6 = biquad_out(e.band5, s5);
    EqState {
        low_shelf: biquad_step(e.low_shelf, x),
        band1: biquad_step(e.band1, s1),
        band2: biquad_step(e.band2, s2),
        band3: biquad_step(e.band3, s3),
        band4: biquad_step(e.band4, s4),
        band5: biquad_step(e.band5, s5),
        high_shelf: biquad_step(e.high_shelf, s6),
    }
}

impl EqState {
    /// Builds the bank from its design words.
    pub fn new(d: &EqDesign) -> (e: EqState)
        ensures
            e == eq_from_design(*d),
    {
        EqState {
            low_shelf: BiquadFilter::new_low_shelf(d.low_shelf.sin_w, d.low_shelf.cos_w, d.low_shelf.gain, d.low_shelf.beta),
            band1: BiquadFilter::new_peaking(d.band1.sin_w, d.band1.cos_w, d.band1.q, d.band1.gain),
            band2: BiquadFilter::new_peaking(d.band2.sin_w, d.band2.cos_w, d.band2.q, d.band2.gain),
            band3: BiquadFilter::new_peaking(d.band3.sin_w, d.band3.cos_w, d.band3.q, d.band3.gain),
            band4: BiquadFilter::new_peaking(d.band4.sin_w, d.band4.cos_w, d.band4.q, d.band4.gain),
            band5: BiquadFilter::new_peaking(d.band5.sin_w, d.band5.cos_w, d.band5.q, d.band5.gain),
            high_shelf: BiquadFilter::new_high_shelf(d.high_shelf.sin_w, d.high_shelf.cos_w, d.high_shelf.gain, d.high_shelf.beta),
        }
    }

    /// Runs one sample through the seven cells in role order.
    pub fn process_sample(&mut self, x: u32) -> (out: u32)
        ensures
            out == eq_out(*old(self), x),
            *final(self) == eq_step(*old(self), x),
    {
        let s1 = self.low_shelf.process(x);
        let s2 = self.band1.process(s1);
        let s3 = self.band2.process(s2);
        let s4 = self.band3.process(s3);
        let s5 = self.band4.process(s4);
        let s6 = self.band5.process(s5);
        self.high_shelf.process(s6)
    }
}

} // verus!
