//! The engine's sample buffer pair.
//!
//! Two owned regions of equal, fixed length — input and output — each
//! holding binary32 sample words.  Both are zero at construction.  The
//! host writes the input region, an effect pass writes the output region,
//! and the host reads the output region back; the bounds-checked accessors
//! here replace the raw region addresses a zero-copy host would use.

use vstd::prelude::*;

verus! {

/// The input/output region pair, with the block length and the sample
/// rate word the engine was created with.
pub struct AudioBufferManager {
    input: Vec<u32>,
    output: Vec<u32>,
    buffer_size: usize,
    sample_rate: u32,
}

/// Builds a vector of `n` zero words.
fn zero_words(n: usize) -> (v: Vec<u32>)
    ensures
        v@ == Seq::new(n as nat, |i: int| 0u32),
{
    let mut v: Vec<u32> = Vec::new();
    let mut k: usize = 0;
    while k < n
        invariant
            k <= n,
            v@.len() == k,
            forall|j: int| 0 <= j < k ==> v@[j] == 0u32,
        decreases n - k,
    {
        v.push(0u32);
        k = k + 1;
    }
    assert(v@ =~= Seq::new(n as nat, |i: int| 0u32));
    v
}

impl AudioBufferManager {
    /// The input region's contents.
    pub closed spec fn input_seq(&self) -> Seq<u32> {
        self.input@
    }

    /// The output region's contents.
    pub closed spec fn output_seq(&self) -> Seq<u32> {
        self.output@
    }

    /// The fixed block length.
    pub closed spec fn size_spec(&self) -> usize {
        self.buffer_size
    }

    /// The sample rate word the pair was created with.
    pub closed spec fn rate_word_spec(&self) -> u32 {
        self.sample_rate
    }

    /// Both regions have exactly the fixed block length.
    pub open spec fn wf(&self) -> bool {
        self.input_seq().len() == self.size_spec() && self.output_seq().len() == self.size_spec()
    }

    /// Allocates the pair: both regions of length `buffer_size`, entirely
    /// zero.
    pub fn new(buffer_size: usize, sample_rate: u32) -> (m: AudioBufferManager)
        ensures
            m.wf(),
            m.size_spec() == buffer_size,
            m.rate_word_spec() == sample_rate,
            m.input_seq() == Seq::new(buffer_size as nat, |i: int| 0u32),
            m.output_seq() == Seq::new(buffer_size as nat, |i: int| 0u32),
    {
        AudioBufferManager {
            input: zero_words(buffer_size),
            output: zero_words(buffer_size),
            buffer_size,
            sample_rate,
        }
    }

    /// The fixed block length.
    pub fn buffer_size(&self) -> (n: usize)
        ensures
            n == self.size_spec(),
    {
        self.buffer_size
    }

    /// The sample rate word.
    pub fn sample_rate_word(&self) -> (w: u32)
        ensures
            w == self.rate_word_spec(),
    {
        self.sample_rate
    }

    /// Reads one word of the input region.
    pub fn input_word(&self, i: usize) -> (w: u32)
        requires
            self.wf(),
            i < self.size_spec(),
        ensures
            w == self.input_seq()[i as int],
    {
        self.input[i]
    }

    /// Reads one word of the output region.
    pub fn output_word(&self, i: usize) -> (w: u32)
        requires
            self.wf(),
            i < self.size_spec(),
        ensures
            w == self.output_seq()[i as int],
    {
        self.output[i]
    }

    /// Writes one word of the input region.
    pub fn write_input(&mut self, i: usize, w: u32)
        requires
            old(self).wf(),
            i < old(self).size_spec(),
        ensures
            final(self).wf(),
            final(self).input_seq() == old(self).input_seq().update(i as int, w),
            final(self).output_seq() == old(self).output_seq(),
            final(self).size_spec() == old(self).size_spec(),
            final(self).rate_word_spec() == old(self).rate_word_spec(),
    {
        self.input.set(i, w);
    }

    /// Writes one word of the output region.
    pub(crate) fn set_output_word(&mut self, i: usize, w: u32)
        requires
            old(self).wf(),
            i < old(self).size_spec(),
        ensures
            final(self).wf(),
            final(self).output_seq() == old(self).output_seq().update(i as int, w),
            final(self).input_seq() == old(self).input_seq(),
            final(self).size_spec() == old(self).size_spec(),
            final(self).rate_word_spec() == old(self).rate_word_spec(),
    {
        self.output.set(i, w);
    }

    /// Fills the whole input region from a block of exactly the buffer's
    /// length.
    pub fn load_input(&mut self, words: &Vec<u32>)
        requires
            old(self).wf(),
            words@.len() == old(self).size_spec(),
        ensures
            final(self).wf(),
            final(self).input_seq() == words@,
            final(self).output_seq() == old(self).output_seq(),
            final(self).size_spec() == old(self).size_spec(),
            final(self).rate_word_spec() == old(self).rate_word_spec(),
    {
        let n = self.buffer_size;
        let mut i: usize = 0;
        while i < n
            invariant
                i <= n,
                n == self.size_spec(),
                self.wf(),
                words@.len() == n,
                self.output_seq() == old(self).output_seq(),
                self.size_spec() == old(self).size_spec(),
                self.rate_word_spec() == old(self).rate_word_spec(),
                forall|j: int| 0 <= j < i ==> self.input_seq()[j] == words@[j],
                forall|j: int| i <= j < n ==> self.input_seq()[j] == old(self).input_seq()[j],
            decreases n - i,
        {
            let w = words[i];
            self.input.set(i, w);
            i = i + 1;
        }
        assert(self.input_seq() =~= words@);
    }

    /// A copy of the whole output region.
    pub fn output_words(&self) -> (v: Vec<u32>)
        requires
            self.wf(),
        ensures
            v@ == self.output_seq(),
    {
        let n = self.buffer_size;
        let mut v: Vec<u32> = Vec::new();
        let mut i: usize = 0;
        while i < n
            invariant
                i <= n,
                n == self.size_spec(),
                self.wf(),
                v@.len() == i,
                forall|j: int| 0 <= j < i ==> v@[j] == self.output_seq()[j],
            decreases n - i,
        {
            v.push(self.output[i]);
            i = i + 1;
        }
        assert(v@ =~= self.output_seq());
        v
    }

    /// Bulk-copies the entire input region to the output region,
    /// unmodified.
    pub fn copy_to_output(&mut self)
        requires
            old(self).wf(),
        ensures
            final(self).wf(),
            final(self).output_seq() == old(self).input_seq(),
            final(self).input_seq() == old(self).input_seq(),
            final(self).size_spec() == old(self).size_spec(),
            final(self).rate_word_spec() == old(self).rate_word_spec(),
    {
        let n = self.buffer_size;
        let mut i: usize = 0;
        while i < n
            invariant
                i <= n,
                n == self.size_spec(),
                self.wf(),
                self.input_seq() == old(self).input_seq(),
                self.size_spec() == old(self).size_spec(),
                self.rate_word_spec() == old(self).rate_word_spec(),
                forall|j: int| 0 <= j < i ==> self.output_seq()[j] == self.input_seq()[j],
                forall|j: int| i <= j < n ==> self.output_seq()[j] == old(self).output_seq()[j],
            decreases n - i,
        {
            let w = self.input[i];
            self.output.set(i, w);
            i = i + 1;
        }
        assert(self.output_seq() =~= old(self).input_seq());
    }
}

} // verus!
