//! The effects engine: one buffer pair, one pitch-shift state, one
//! seven-band filter bank.
//!
//! The host fills the input region, invokes exactly one effect operation
//! (or the raw copy) per processing block, and reads the output region
//! back.  Each pass reads the full input region and writes the full output
//! region; its contract states the exact binary32 word written at every
//! index, as a fold of the per-sample step over the block.
//!
//! The transcendental quantities an effect needs — the linear gain
//! `10^(db/20)`, the quantization level count `2^bit_depth - 1`, the
//! per-sample `tanh` saturation, and the trigonometry of the filter
//! designs — are evaluated on the host side and handed in as words;
//! everything from there on is exact IEEE arithmetic, verified here.

use vstd::prelude::*;
use crate::fbits::{
    ONE_BITS, NEG_ZERO_BITS, fp_mul, fp_div, fp_fmod, fp_round_half_away, fp_of_int, fp_lt,
    fp_is_nan, fp_is_finite, add_words, sub_words, mul_words, div_words, fmod_words,
    round_words, word_of_usize, lt_words, ge_words,
};
use crate::buffers::AudioBufferManager;
use crate::pitch::{PitchShiftState, pitch_step_state, pitch_step_out, pitch_state_after, pitch_out_at};
use crate::eq::{EqState, EqDesign, eq_from_design, eq_out, eq_step};
use crate::AudioError;

verus! {

/// The filter bank after the first `n` samples of a block.
pub open spec fn eq_state_after(e0: EqState, inp: Seq<u32>, n: int) -> EqState
    decreases n,
{
    if n <= 0 {
        e0
    } else {
        eq_step(eq_state_after(e0, inp, n - 1), inp[n - 1])
    }
}

/// The word the equalizer writes at index `i` of a block.
pub open spec fn eq_out_at(e0: EqState, inp: Seq<u32>, i: int) -> u32 {
    eq_out(eq_state_after(e0, inp, i), inp[i])
}

/// The bit-depth quantization of one word: `round(x * levels) / levels`.
pub open spec fn lofi_quant(x: u32, levels: u32) -> u32 {
    fp_div(fp_round_half_away(fp_mul(x, levels)), levels)
}

/// The downsample decision at index `i`: keep a fresh quantized sample
/// exactly when `(i as binary32) mod factor` compares below 1.0.
pub open spec fn lofi_take(i: int, factor: u32) -> bool {
    fp_lt(fp_fmod(fp_of_int(i), factor), ONE_BITS)
}

/// The word the lo-fi pass writes at index `i`: the quantized input where
/// the downsample decision keeps it, otherwise the previous output word,
/// or zero at the start of the block.
pub open spec fn lofi_out_at(inp: Seq<u32>, levels: u32, factor: u32, i: int) -> u32
    decreases i,
{
    if lofi_take(i, factor) {
        lofi_quant(inp[i], levels)
    } else if i > 0 {
        lofi_out_at(inp, levels, factor, i - 1)
    } else {
        0u32
    }
}

/// The raw copy as a function of the region contents: the output region
/// becomes the input region, the input region stays what it was.
pub open spec fn copy_model(inp: Seq<u32>, outp: Seq<u32>) -> (Seq<u32>, Seq<u32>) {
    (inp, inp)
}

/// The raw copy is idempotent: performing it twice on any region contents
/// leaves exactly the state one copy leaves.
pub proof fn lemma_copy_to_output_idempotent(inp: Seq<u32>, outp: Seq<u32>)
    ensures
        copy_model(copy_model(inp, outp).0, copy_model(inp, outp).1) == copy_model(inp, outp),
{
}

/// Every word of the block is finite and none is negative zero: the inputs
/// on which a unity pitch factor reproduces the block bit for bit.
pub open spec fn unity_clean_inputs(inp: Seq<u32>) -> bool {
    forall|j: int| 0 <= j < inp.len() ==> fp_is_finite(inp[j]) && inp[j] != NEG_ZERO_BITS
}

/// The effects engine.
pub struct AudioEffectsProcessor {
    pub buffer_manager: AudioBufferManager,
    pub pitch_shift_state: PitchShiftState,
    pub eq_state: EqState,
}

impl AudioEffectsProcessor {
    /// The input region's contents.
    pub open spec fn input_seq(&self) -> Seq<u32> {
        self.buffer_manager.input_seq()
    }

    /// The output region's contents.
    pub open spec fn output_seq(&self) -> Seq<u32> {
        self.buffer_manager.output_seq()
    }

    /// The fixed block length.
    pub open spec fn size_spec(&self) -> usize {
        self.buffer_manager.size_spec()
    }

    /// Both regions have exactly the fixed block length.
    pub open spec fn wf(&self) -> bool {
        self.buffer_manager.wf()
    }

    /// The engine's configuration — block length and sample rate word —
    /// is the same in both states.
    pub open spec fn same_config(&self, other: &AudioEffectsProcessor) -> bool {
        self.size_spec() == other.size_spec()
            && self.buffer_manager.rate_word_spec() == other.buffer_manager.rate_word_spec()
    }

    /// Creates the engine: a zeroed buffer pair of the given length, a
    /// fresh pitch-shift state, and the filter bank built from the given
    /// design words.
    pub fn new(buffer_size: usize, sample_rate: u32, eq_design: &EqDesign) -> (p: AudioEffectsProcessor)
        ensures
            p.wf(),
            p.size_spec() == buffer_size,
            p.buffer_manager.rate_word_spec() == sample_rate,
            p.input_seq() == Seq::new(buffer_size as nat, |i: int| 0u32),
            p.output_seq() == Seq::new(buffer_size as nat, |i: int| 0u32),
            p.pitch_shift_state == (PitchShiftState { phase: 0u32, previous_sample: 0u32 }),
            p.eq_state == eq_from_design(*eq_design),
    {
        AudioEffectsProcessor {
            buffer_manager: AudioBufferManager::new(buffer_size, sample_rate),
            pitch_shift_state: PitchShiftState::new(),
            eq_state: EqState::new(eq_design),
        }
    }

    /// Bulk-copies the entire input region to the output region
    /// unmodified; the effect states are untouched.
    pub fn copy_to_output(&mut self)
        requires
            old(self).wf(),
        ensures
            final(self).wf(),
            final(self).same_config(old(self)),
            final(self).output_seq() == old(self).input_seq(),
            final(self).input_seq() == old(self).input_seq(),
            (final(self).input_seq(), final(self).output_seq()) == copy_model(
                old(self).input_seq(),
                old(self).output_seq(),
            ),
            final(self).pitch_shift_state == old(self).pitch_shift_state,
            final(self).eq_state == old(self).eq_state,
    {
        self.buffer_manager.copy_to_output();
    }

    /// The crude pitch shifter: one pass over the block, advancing the
    /// phase accumulator by `pitch_factor` per sample and writing the
    /// two-point interpolation of each input against the held sample.
    ///
    /// When the pass starts with phase zero, the factor is exactly 1.0 and
    /// every input word is finite and not negative zero, the phase crosses
    /// 1.0 once per sample, the held sample is replaced every step, and
    /// the block is reproduced bit for bit.
    pub fn process_pitch_shift(&mut self, pitch_factor: u32)
        requires
            old(self).wf(),
        ensures
            final(self).wf(),
            final(self).same_config(old(self)),
            final(self).input_seq() == old(self).input_seq(),
            final(self).eq_state == old(self).eq_state,
            final(self).pitch_shift_state == pitch_state_after(
                old(self).pitch_shift_state,
                pitch_factor,
                old(self).input_seq(),
                old(self).size_spec() as int,
            ),
            forall|j: int|
                0 <= j < old(self).size_spec() ==> final(self).output_seq()[j] == pitch_out_at(
                    old(self).pitch_shift_state,
                    pitch_factor,
                    old(self).input_seq(),
                    j,
                ),
            (old(self).pitch_shift_state.phase == 0u32 && pitch_factor == ONE_BITS
                && unity_clean_inputs(old(self).input_seq())) ==> {
                &&& final(self).output_seq() == old(self).input_seq()
                &&& final(self).pitch_shift_state.phase == 0u32
                &&& old(self).size_spec() > 0 ==> final(self).pitch_shift_state.previous_sample
                    == old(self).input_seq()[old(self).size_spec() - 1]
            },
    {
        let n = self.buffer_manager.buffer_size();
        let ghost st0 = old(self).pitch_shift_state;
        let ghost inp0 = old(self).input_seq();
        let ghost unity = st0.phase == 0u32 && pitch_factor == ONE_BITS && unity_clean_inputs(inp0);
        let mut i: usize = 0;
        while i < n
            invariant
                i <= n,
                self.wf(),
                n == self.size_spec(),
                self.same_config(old(self)),
                self.input_seq() == inp0,
                inp0.len() == n,
                self.eq_state == old(self).eq_state,
                self.pitch_shift_state == pitch_state_after(st0, pitch_factor, inp0, i as int),
                forall|j: int| 0 <= j < i ==> self.output_seq()[j] == pitch_out_at(st0, pitch_factor, inp0, j),
                unity == (st0.phase == 0u32 && pitch_factor == ONE_BITS && unity_clean_inputs(inp0)),
                unity ==> self.pitch_shift_state.phase == 0u32,
                unity ==> forall|j: int| 0 <= j < i ==> self.output_seq()[j] == inp0[j],
                unity && i > 0 ==> self.pitch_shift_state.previous_sample == inp0[i - 1],
            decreases n - i,
        {
            let x = self.buffer_manager.input_word(i);
            let st = self.pitch_shift_state;
            let phase1 = add_words(st.phase, pitch_factor);
            let crossed = ge_words(phase1, ONE_BITS);
            let phase2: u32;
            let prev2: u32;
            if crossed {
                phase2 = sub_words(phase1, ONE_BITS);
                prev2 = x;
            } else {
                phase2 = phase1;
                prev2 = st.previous_sample;
            }
            let out = add_words(prev2, mul_words(sub_words(x, prev2), phase2));
            self.pitch_shift_state = PitchShiftState { phase: phase2, previous_sample: prev2 };
            self.buffer_manager.set_output_word(i, out);
            proof {
                assert(self.pitch_shift_state == pitch_step_state(st, pitch_factor, x));
                assert(out == pitch_step_out(st, pitch_factor, x));
                if unity {
                    assert(fp_is_finite(x) && x != NEG_ZERO_BITS);
                    assert(phase1 == ONE_BITS);
                    assert(phase2 == 0u32);
                    assert(out == x);
                }
            }
            i = i + 1;
        }
        proof {
            if unity {
                assert(self.output_seq() =~= inp0);
            }
        }
    }

    /// The input block scaled by the boost factor word: the first half of
    /// the bass boost, whose saturation the host applies to each scaled
    /// word before committing the block with `write_output_block`.
    pub fn scaled_input(&self, boost_factor: u32) -> (v: Vec<u32>)
        requires
            self.wf(),
        ensures
            v@.len() == self.size_spec(),
            forall|j: int| 0 <= j < self.size_spec() ==> v@[j] == fp_mul(self.input_seq()[j], boost_factor),
    {
        let n = self.buffer_manager.buffer_size();
        let mut v: Vec<u32> = Vec::new();
        let mut i: usize = 0;
        while i < n
            invariant
                i <= n,
                self.wf(),
                n == self.size_spec(),
                v@.len() == i,
                forall|j: int| 0 <= j < i ==> v@[j] == fp_mul(self.input_seq()[j], boost_factor),
            decreases n - i,
        {
            let x = self.buffer_manager.input_word(i);
            v.push(mul_words(x, boost_factor));
            i = i + 1;
        }
        v
    }

    /// Commits a fully computed block to the output region; the input
    /// region and the effect states are untouched.
    pub fn write_output_block(&mut self, words: &Vec<u32>)
        requires
            old(self).wf(),
            words@.len() == old(self).size_spec(),
        ensures
            final(self).wf(),
            final(self).same_config(old(self)),
            final(self).output_seq() == words@,
            final(self).input_seq() == old(self).input_seq(),
            final(self).pitch_shift_state == old(self).pitch_shift_state,
            final(self).eq_state == old(self).eq_state,
    {
        let n = self.buffer_manager.buffer_size();
        let mut i: usize = 0;
        while i < n
            invariant
                i <= n,
                self.wf(),
                n == self.size_spec(),
                self.same_config(old(self)),
                words@.len() == n,
                self.input_seq() == old(self).input_seq(),
                self.pitch_shift_state == old(self).pitch_shift_state,
                self.eq_state == old(self).eq_state,
                forall|j: int| 0 <= j < i ==> self.output_seq()[j] == words@[j],
                forall|j: int| i <= j < n ==> self.output_seq()[j] == old(self).output_seq()[j],
            decreases n - i,
        {
            let w = words[i];
            self.buffer_manager.set_output_word(i, w);
            i = i + 1;
        }
        assert(self.output_seq() =~= words@);
    }

    /// The seven-band equalizer: rejects a gain sequence whose length is
    /// not seven and then leaves the engine untouched; otherwise runs every
    /// input word through the filter bank in role order.  The gain values
    /// themselves are validated but deliberately not applied — the bank's
    /// coefficients are fixed at construction, a quirk of this engine kept
    /// as designed.
    pub fn process_eq_7band(&mut self, gains: &Vec<u32>) -> (r: Result<(), AudioError>)
        requires
            old(self).wf(),
        ensures
            final(self).wf(),
            gains@.len() != 7 ==> r == Err::<(), AudioError>(AudioError::InvalidArgument)
                && *final(self) == *old(self),
            gains@.len() == 7 ==> {
                &&& r == Ok::<(), AudioError>(())
                &&& final(self).same_config(old(self))
                &&& final(self).input_seq() == old(self).input_seq()
                &&& final(self).pitch_shift_state == old(self).pitch_shift_state
                &&& final(self).eq_state == eq_state_after(
                    old(self).eq_state,
                    old(self).input_seq(),
                    old(self).size_spec() as int,
                )
                &&& forall|j: int|
                    0 <= j < old(self).size_spec() ==> final(self).output_seq()[j] == eq_out_at(
                        old(self).eq_state,
                        old(self).input_seq(),
                        j,
                    )
            },
    {
        if gains.len() != 7 {
            return Err(AudioError::InvalidArgument);
        }
        let n = self.buffer_manager.buffer_size();
        let ghost e0 = old(self).eq_state;
        let ghost inp0 = old(self).input_seq();
        let mut i: usize = 0;
        while i < n
            invariant
                i <= n,
                self.wf(),
                n == self.size_spec(),
                self.same_config(old(self)),
                self.input_seq() == inp0,
                inp0.len() == n,
                self.pitch_shift_state == old(self).pitch_shift_state,
                self.eq_state == eq_state_after(e0, inp0, i as int),
                forall|j: int| 0 <= j < i ==> self.output_seq()[j] == eq_out_at(e0, inp0, j),
            decreases n - i,
        {
            let x = self.buffer_manager.input_word(i);
            let out = self.eq_state.process_sample(x);
            self.buffer_manager.set_output_word(i, out);
            i = i + 1;
        }
        Ok(())
    }

    /// The lo-fi pass, from an already-computed quantization level word
    /// (`2^bit_depth - 1` on the host side): each kept sample is quantized
    /// to those levels, and between kept samples the previous output word
    /// is held, starting from zero.
    ///
    /// With both the level word and the downsample factor exactly 1.0 and
    /// no NaN input, every output word is exactly the rounded input word.
    pub fn process_lo_fi_with_levels(&mut self, quantization_levels: u32, downsample_factor: u32)
        requires
            old(self).wf(),
        ensures
            final(self).wf(),
            final(self).same_config(old(self)),
            final(self).input_seq() == old(self).input_seq(),
            final(self).pitch_shift_state == old(self).pitch_shift_state,
            final(self).eq_state == old(self).eq_state,
            forall|j: int|
                0 <= j < old(self).size_spec() ==> final(self).output_seq()[j] == lofi_out_at(
                    old(self).input_seq(),
                    quantization_levels,
                    downsample_factor,
                    j,
                ),
            (quantization_levels == ONE_BITS && downsample_factor == ONE_BITS
                && (forall|j: int| 0 <= j < old(self).size_spec() ==> !fp_is_nan(old(self).input_seq()[j])))
                ==> forall|j: int|
                    0 <= j < old(self).size_spec() ==> final(self).output_seq()[j]
                        == fp_round_half_away(old(self).input_seq()[j]),
    {
        let n = self.buffer_manager.buffer_size();
        let ghost inp0 = old(self).input_seq();
        let ghost hard = quantization_levels == ONE_BITS && downsample_factor == ONE_BITS
            && (forall|j: int| 0 <= j < inp0.len() ==> !fp_is_nan(inp0[j]));
        let mut i: usize = 0;
        while i < n
            invariant
                i <= n,
                self.wf(),
                n == self.size_spec(),
                self.same_config(old(self)),
                self.input_seq() == inp0,
                inp0.len() == n,
                self.pitch_shift_state == old(self).pitch_shift_state,
                self.eq_state == old(self).eq_state,
                forall|j: int|
                    0 <= j < i ==> self.output_seq()[j] == lofi_out_at(
                        inp0,
                        quantization_levels,
                        downsample_factor,
                        j,
                    ),
                hard == (quantization_levels == ONE_BITS && downsample_factor == ONE_BITS
                    && (forall|j: int| 0 <= j < inp0.len() ==> !fp_is_nan(inp0[j]))),
                hard ==> forall|j: int| 0 <= j < i ==> self.output_seq()[j] == fp_round_half_away(inp0[j]),
            decreases n - i,
        {
            let x = self.buffer_manager.input_word(i);
            let iw = word_of_usize(i);
            let m = fmod_words(iw, downsample_factor);
            let take = lt_words(m, ONE_BITS);
            let w: u32;
            if take {
                let scaled = mul_words(x, quantization_levels);
                let rounded = round_words(scaled);
                w = div_words(rounded, quantization_levels);
            } else {
                if i > 0 {
                    w = self.buffer_manager.output_word(i - 1);
                } else {
                    w = 0u32;
                }
            }
            proof {
                assert(take == lofi_take(i as int, downsample_factor));
            }
            let ghost oprev = self.output_seq();
            self.buffer_manager.set_output_word(i, w);
            proof {
                assert(self.output_seq() == oprev.update(i as int, w));
                assert(x == inp0[i as int]);
                assert(self.output_seq()[i as int] == w);
                if take {
                    assert(w == lofi_quant(inp0[i as int], quantization_levels));
                    assert(lofi_out_at(inp0, quantization_levels, downsample_factor, i as int)
                        == lofi_quant(inp0[i as int], quantization_levels));
                } else if i > 0 {
                    assert(w == lofi_out_at(inp0, quantization_levels, downsample_factor, i - 1));
                    assert(lofi_out_at(inp0, quantization_levels, downsample_factor, i as int)
                        == lofi_out_at(inp0, quantization_levels, downsample_factor, i - 1));
                } else {
                    assert(w == 0u32);
                    assert(lofi_out_at(inp0, quantization_levels, downsample_factor, 0) == 0u32);
                }
                assert(self.output_seq()[i as int] == lofi_out_at(inp0, quantization_levels, downsample_factor, i as int));
                if hard {
                    assert(!fp_is_nan(x));
                    assert(take);
                    assert(w == fp_round_half_away(x));
                    assert(self.output_seq()[i as int] == fp_round_half_away(inp0[i as int]));
                    assert forall|j: int|
                        0 <= j < i + 1 implies self.output_seq()[j] == fp_round_half_away(inp0[j]) by {
                        if j < i {
                            assert(oprev[j] == fp_round_half_away(inp0[j]));
                            assert(self.output_seq()[j] == oprev[j]);
                        }
                    }
                }
            }
            i = i + 1;
        }
    }
}

} // verus!
