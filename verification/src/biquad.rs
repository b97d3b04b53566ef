//! A single second-order IIR filter cell.
//!
//! A `BiquadFilter` holds five normalized coefficients and a two-sample
//! history of inputs and outputs.  Its one per-sample transform computes
//! `b0*x + b1*x1 + b2*x2 - a1*y1 - a2*y2` and shifts the history, and must
//! be called in strict sample order.  Three designs build the coefficients:
//! a peaking band and a low shelf, each from the sine and cosine of the
//! band's angular frequency, and a high shelf that this engine deliberately
//! builds with the low-shelf design (an approximation kept on purpose: the
//! two shelves share one response).
//!
//! The designs take the transcendental quantities — the sine and cosine of
//! `w = 2*pi*freq/sample_rate`, the linear gain `10^(gain_db/20)` and the
//! shelf's `sqrt(gain)` — as already-computed binary32 words, since only
//! the host side evaluates those functions; everything built from them here
//! is exact IEEE arithmetic with an exact contract.

use vstd::prelude::*;
use crate::fbits::{
    ONE_BITS, TWO_BITS, NEG_TWO_BITS, fp_add, fp_sub, fp_mul, fp_div, add_words, sub_words,
    mul_words, div_words,
};

verus! {

/// One biquad cell: normalized coefficients (the design's `a0` is folded
/// out) and the two-sample input/output history, all binary32 bit patterns.
#[derive(Clone, Copy, Debug, PartialEq, Eq, Structural)]
pub struct BiquadFilter {
    pub b0: u32,
    pub b1: u32,
    pub b2: u32,
    pub a1: u32,
    pub a2: u32,
    pub x1: u32,
    pub x2: u32,
    pub y1: u32,
    pub y2: u32,
}

/// The word a biquad cell outputs for input `x`:
/// `b0*x + b1*x1 + b2*x2 - a1*y1 - a2*y2`, evaluated left to right in
/// binary32.
pub open spec fn biquad_out(f: BiquadFilter, x: u32) -> u32 {
    fp_sub(
        fp_sub(
            fp_add(fp_add(fp_mul(f.b0, x), fp_mul(f.b1, f.x1)), fp_mul(f.b2, f.x2)),
            fp_mul(f.a1, f.y1),
        ),
        fp_mul(f.a2, f.y2),
    )
}

/// The cell after one step: history shifted by one sample, coefficients
/// unchanged.
pub open spec fn biquad_step(f: BiquadFilter, x: u32) -> BiquadFilter {
    BiquadFilter {
        x2: f.x1,
        x1: x,
        y2: f.y1,
        y1: biquad_out(f, x),
        ..f
    }
}

/// The peaking design, normalized by its `a0`.  `sin_w` and `cos_w` are the
/// sine and cosine words of the band's angular frequency, `q` the quality
/// factor word, `gain` the linear gain word.
pub open spec fn peaking_design(sin_w: u32, cos_w: u32, q: u32, gain: u32) -> BiquadFilter {
    let alpha = fp_div(sin_w, fp_mul(TWO_BITS, q));
    let b0u = fp_add(ONE_BITS, fp_mul(alpha, gain));
    let b1u = fp_mul(NEG_TWO_BITS, cos_w);
    let b2u = fp_sub(ONE_BITS, fp_mul(alpha, gain));
    let a0u = fp_add(ONE_BITS, fp_div(alpha, gain));
    let a1u = fp_mul(NEG_TWO_BITS, cos_w);
    let a2u = fp_sub(ONE_BITS, fp_div(alpha, gain));
    BiquadFilter {
        b0: fp_div(b0u, a0u),
        b1: fp_div(b1u, a0u),
        b2: fp_div(b2u, a0u),
        a1: fp_div(a1u, a0u),
        a2: fp_div(a2u, a0u),
        x1: 0u32,
        x2: 0u32,
        y1: 0u32,
        y2: 0u32,
    }
}

/// The shelf design (slope fixed at 1), normalized by its `a0`.  `beta` is
/// the word of `sqrt(gain)`.
pub open spec fn shelf_design(sin_w: u32, cos_w: u32, gain: u32, beta: u32) -> BiquadFilter {
    let gp1 = fp_add(gain, ONE_BITS);
    let gm1 = fp_sub(gain, ONE_BITS);
    let b0u = fp_mul(gain, fp_add(fp_sub(gp1, fp_mul(gm1, cos_w)), fp_mul(beta, sin_w)));
    let b1u = fp_mul(fp_mul(TWO_BITS, gain), fp_sub(gm1, fp_mul(gp1, cos_w)));
    let b2u = fp_mul(gain, fp_sub(fp_sub(gp1, fp_mul(gm1, cos_w)), fp_mul(beta, sin_w)));
    let a0u = fp_add(fp_add(gp1, fp_mul(gm1, cos_w)), fp_mul(beta, sin_w));
    let a1u = fp_mul(NEG_TWO_BITS, fp_add(gm1, fp_mul(gp1, cos_w)));
    let a2u = fp_sub(fp_add(gp1, fp_mul(gm1, cos_w)), fp_mul(beta, sin_w));
    BiquadFilter {
        b0: fp_div(b0u, a0u),
        b1: fp_div(b1u, a0u),
        b2: fp_div(b2u, a0u),
        a1: fp_div(a1u, a0u),
        a2: fp_div(a2u, a0u),
        x1: 0u32,
        x2: 0u32,
        y1: 0u32,
        y2: 0u32,
    }
}

impl BiquadFilter {
    /// A peaking band from the sine and cosine words of its angular
    /// frequency, the quality factor word and the linear gain word.
    pub fn new_peaking(sin_w: u32, cos_w: u32, q: u32, gain: u32) -> (f: BiquadFilter)
        ensures
            f == peaking_design(sin_w, cos_w, q, gain),
    {
        let alpha = div_words(sin_w, mul_words(TWO_BITS, q));
        let b0u = add_words(ONE_BITS, mul_words(alpha, gain));
        let b1u = mul_words(NEG_TWO_BITS, cos_w);
        let b2u = sub_words(ONE_BITS, mul_words(alpha, gain));
        let a0u = add_words(ONE_BITS, div_words(alpha, gain));
        let a1u = mul_words(NEG_TWO_BITS, cos_w);
        let a2u = sub_words(ONE_BITS, div_words(alpha, gain));
        BiquadFilter {
            b0: div_words(b0u, a0u),
            b1: div_words(b1u, a0u),
            b2: div_words(b2u, a0u),
            a1: div_words(a1u, a0u),
            a2: div_words(a2u, a0u),
            x1: 0u32,
            x2: 0u32,
            y1: 0u32,
            y2: 0u32,
        }
    }

    /// A low shelf from the sine and cosine words of its corner frequency,
    /// the linear gain word and the word of `sqrt(gain)`.
    pub fn new_low_shelf(sin_w: u32, cos_w: u32, gain: u32, beta: u32) -> (f: BiquadFilter)
        ensures
            f == shelf_design(sin_w, cos_w, gain, beta),
    {
        let gp1 = add_words(gain, ONE_BITS);
        let gm1 = sub_words(gain, ONE_BITS);
        let b0u = mul_words(gain, add_words(sub_words(gp1, mul_words(gm1, cos_w)), mul_words(beta, sin_w)));
        let b1u = mul_words(mul_words(TWO_BITS, gain), sub_words(gm1, mul_words(gp1, cos_w)));
        let b2u = mul_words(gain, sub_words(sub_words(gp1, mul_words(gm1, cos_w)), mul_words(beta, sin_w)));
        let a0u = add_words(add_words(gp1, mul_words(gm1, cos_w)), mul_words(beta, sin_w));
        let a1u = mul_words(NEG_TWO_BITS, add_words(gm1, mul_words(gp1, cos_w)));
        let a2u = sub_words(add_words(gp1, mul_words(gm1, cos_w)), mul_words(beta, sin_w));
        BiquadFilter {
            b0: div_words(b0u, a0u),
            b1: div_words(b1u, a0u),
            b2: div_words(b2u, a0u),
            a1: div_words(a1u, a0u),
            a2: div_words(a2u, a0u),
            x1: 0u32,
            x2: 0u32,
            y1: 0u32,
            y2: 0u32,
        }
    }

    /// A high shelf.  This engine builds it with the low-shelf design — a
    /// deliberate approximation, kept so that both shelves have one
    /// response.
    pub fn new_high_shelf(sin_w: u32, cos_w: u32, gain: u32, beta: u32) -> (f: BiquadFilter)
        ensures
            f == shelf_design(sin_w, cos_w, gain, beta),
    {
        BiquadFilter::new_low_shelf(sin_w, cos_w, gain, beta)
    }

    /// One per-sample transform: returns the filtered word and shifts the
    /// two-sample history.  Must be called in strict sample order.
    pub fn process(&mut self, input: u32) -> (out: u32)
        ensures
            out == biquad_out(*old(self), input),
            *final(self) == biquad_step(*old(self), input),
    {
        let t1 = mul_words(self.b0, input);
        let t2 = add_words(t1, mul_words(self.b1, self.x1));
        let t3 = add_words(t2, mul_words(self.b2, self.x2));
        let t4 = sub_words(t3, mul_words(self.a1, self.y1));
        let output = sub_words(t4, mul_words(self.a2, self.y2));
        self.x2 = self.x1;
        self.x1 = input;
        self.y2 = self.y1;
        self.y1 = output;
        output
    }
}

} // verus!
