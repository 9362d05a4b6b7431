//! The per-pixel accumulation discipline.
//!
//! Each pixel of the target carries a running sum of the radiance samples
//! contributed to it since the last reset, and the resolved image divides
//! every sum by the shared sample counter: an unweighted running mean.
//! This module states that discipline mathematically, proves its defining
//! properties (a reset is idempotent; the first frame after a reset
//! resolves to exactly that frame; after `k` frames every pixel resolves
//! to the mean of its `k` contributions), and provides an executable
//! accumulator proved to follow it step by step. The accumulator stands in
//! for the GPU-resident buffer: any frame contribution, deterministic or
//! stochastic, may be fed to it, so what is proved holds of every sequence
//! of contributions the kernel could produce.

use vstd::prelude::*;

verus! {

/// Mathematical state of the accumulation buffer: one running sum per
/// pixel, and the count of frames accumulated since the last reset.
#[verifier::ext_equal]
pub ghost struct AccumState {
    pub sums: Seq<int>,
    pub samples: int,
}

/// An accumulation state is plausible when its counter and sums fit the
/// machine words that carry them.
pub open spec fn accum_inv(m: AccumState) -> bool {
    &&& 0 <= m.samples <= u32::MAX
    &&& forall|i: int| 0 <= i < m.sums.len() ==> 0 <= #[trigger] m.sums[i] <= u64::MAX
}

/// A `u64` sequence read as a sequence of mathematical integers.
pub open spec fn int_seq(s: Seq<u64>) -> Seq<int> {
    Seq::new(s.len(), |i: int| s[i] as int)
}

/// Invalidation: every running sum returns to zero, the counter to zero;
/// the pixel count stays.
pub open spec fn accum_reset(m: AccumState) -> AccumState {
    AccumState { sums: Seq::new(m.sums.len(), |i: int| 0), samples: 0 }
}

/// One frame of contributions `c` (one value per pixel) is added into the
/// running sums, and the counter advances by exactly one.
pub open spec fn accum_frame(m: AccumState, c: Seq<int>) -> AccumState {
    AccumState {
        sums: Seq::new(m.sums.len(), |i: int| m.sums[i] + c[i]),
        samples: m.samples + 1,
    }
}

/// The frames `cs`, accumulated in order with no reset in between.
pub open spec fn accum_frames(m: AccumState, cs: Seq<Seq<int>>) -> AccumState
    decreases cs.len(),
{
    if cs.len() == 0 {
        m
    } else {
        accum_frames(accum_frame(m, cs.first()), cs.drop_first())
    }
}

/// The resolved image: each pixel's running sum divided by the sample
/// counter (Euclidean division; contributions and sums are non-negative).
pub open spec fn resolved(m: AccumState) -> Seq<int> {
    Seq::new(m.sums.len(), |i: int| m.sums[i] / m.samples)
}

/// Total contribution of the frames `cs` to pixel `i`.
pub open spec fn column_total(cs: Seq<Seq<int>>, i: int) -> int
    decreases cs.len(),
{
    if cs.len() == 0 {
        0
    } else {
        cs.first()[i] + column_total(cs.drop_first(), i)
    }
}

/// Resetting twice in a row, with no frame in between, leaves exactly the
/// state that one reset leaves: invalidation is idempotent.
pub proof fn lemma_reset_idempotent(m: AccumState)
    ensures
        accum_reset(accum_reset(m)) == accum_reset(m),
{
    assert(accum_reset(accum_reset(m)) =~= accum_reset(m));
}

/// The first frame after a reset resolves to exactly its own
/// contributions: sample count one, no blend with anything accumulated
/// before the reset.
pub proof fn lemma_first_frame_resolves_exactly(m: AccumState, c: Seq<int>)
    requires
        c.len() == m.sums.len(),
    ensures
        accum_frame(accum_reset(m), c).samples == 1,
        resolved(accum_frame(accum_reset(m), c)) == c,
{
    assert(resolved(accum_frame(accum_reset(m), c)) =~= c);
}

/// Accumulating the frames `cs` advances the counter by their number and
/// adds, pixel by pixel, their total contribution to the running sums.
pub proof fn lemma_frames_accumulate(m: AccumState, cs: Seq<Seq<int>>)
    requires
        forall|j: int| 0 <= j < cs.len() ==> (#[trigger] cs[j]).len() == m.sums.len(),
    ensures
        accum_frames(m, cs).samples == m.samples + cs.len(),
        accum_frames(m, cs).sums.len() == m.sums.len(),
        forall|i: int|
            0 <= i < m.sums.len() ==> (#[trigger] accum_frames(m, cs).sums[i]) == m.sums[i]
                + column_total(cs, i),
    decreases cs.len(),
{
    if cs.len() > 0 {
        let m1 = accum_frame(m, cs.first());
        assert(forall|j: int|
            0 <= j < cs.drop_first().len() ==> (#[trigger] cs.drop_first()[j]).len()
                == m1.sums.len());
        lemma_frames_accumulate(m1, cs.drop_first());
    }
}

/// The running-mean law: after a reset followed by the frames `cs`, the
/// counter reads their number, and every pixel of the resolved image is
/// the mean of that pixel's contributions across `cs`.
pub proof fn lemma_running_mean(m: AccumState, cs: Seq<Seq<int>>)
    requires
        cs.len() > 0,
        forall|j: int| 0 <= j < cs.len() ==> (#[trigger] cs[j]).len() == m.sums.len(),
    ensures
        accum_frames(accum_reset(m), cs).samples == cs.len(),
        resolved(accum_frames(accum_reset(m), cs)) == Seq::new(
            m.sums.len(),
            |i: int| column_total(cs, i) / (cs.len() as int),
        ),
{
    let m0 = accum_reset(m);
    lemma_frames_accumulate(m0, cs);
    assert(resolved(accum_frames(m0, cs)) =~= Seq::new(
        m.sums.len(),
        |i: int| column_total(cs, i) / (cs.len() as int),
    ));
}

/// Executable accumulation buffer: one running sum per pixel and the
/// sample counter, proved to follow the accumulation discipline above.
pub struct Accumulator {
    sums: Vec<u64>,
    samples: u32,
}

impl View for Accumulator {
    type V = AccumState;

    closed spec fn view(&self) -> AccumState {
        AccumState { sums: int_seq(self.sums@), samples: self.samples as int }
    }
}

impl Accumulator {
    /// A fresh buffer of `pixel_count` pixels: every sum zero, counter
    /// zero.
    pub fn new(pixel_count: usize) -> (a: Accumulator)
        ensures
            a@ == (AccumState {
                sums: Seq::new(pixel_count as nat, |i: int| 0),
                samples: 0,
            }),
            accum_inv(a@),
    {
        let mut sums: Vec<u64> = Vec::new();
        let mut j: usize = 0;
        while j < pixel_count
            invariant
                j <= pixel_count,
                sums@.len() == j,
                forall|i: int| 0 <= i < j ==> sums@[i] == 0,
            decreases pixel_count - j,
        {
            sums.push(0);
            j = j + 1;
        }
        let a = Accumulator { sums, samples: 0 };
        proof {
            assert(a@.sums =~= Seq::new(pixel_count as nat, |i: int| 0));
        }
        a
    }

    /// Number of pixels the buffer covers.
    pub fn pixel_count(&self) -> (n: usize)
        ensures
            n == self@.sums.len(),
    {
        self.sums.len()
    }

    /// Samples accumulated since the last reset (or construction).
    pub fn sample_count(&self) -> (n: u32)
        ensures
            n == self@.samples,
    {
        self.samples
    }

    /// Discards everything accumulated so far.
    pub fn reset(&mut self)
        ensures
            final(self)@ == accum_reset(old(self)@),
            accum_inv(final(self)@),
    {
        let len = self.sums.len();
        let mut j: usize = 0;
        while j < len
            invariant
                j <= len,
                self.sums@.len() == len,
                forall|i: int| 0 <= i < j ==> self.sums@[i] == 0,
            decreases len - j,
        {
            self.sums[j] = 0;
            j = j + 1;
        }
        self.samples = 0;
        proof {
            assert(self@.sums =~= accum_reset(old(self)@).sums);
        }
    }

    /// Adds one frame of contributions, one value per pixel, and advances
    /// the counter by exactly one.
    pub fn add_frame(&mut self, frame: &Vec<u64>)
        requires
            frame@.len() == old(self)@.sums.len(),
            old(self)@.samples < u32::MAX,
            forall|i: int|
                0 <= i < frame@.len() ==> old(self)@.sums[i] + frame@[i] <= u64::MAX,
        ensures
            final(self)@ == accum_frame(old(self)@, int_seq(frame@)),
            accum_inv(final(self)@),
    {
        let len = self.sums.len();
        let mut j: usize = 0;
        while j < len
            invariant
                j <= len,
                len == old(self)@.sums.len(),
                frame@.len() == len,
                self.samples == old(self).samples,
                self.sums@.len() == len,
                forall|i: int|
                    0 <= i < len ==> old(self)@.sums[i] + frame@[i] <= u64::MAX,
                forall|i: int|
                    0 <= i < j ==> self.sums@[i] == old(self).sums@[i] + frame@[i],
                forall|i: int| j <= i < len ==> self.sums@[i] == old(self).sums@[i],
            decreases len - j,
        {
            self.sums[j] = self.sums[j] + frame[j];
            j = j + 1;
        }
        self.samples = self.samples + 1;
        proof {
            assert(self@.sums =~= accum_frame(old(self)@, int_seq(frame@)).sums);
        }
    }

    /// The resolved image: every pixel's running sum divided by the
    /// sample counter.
    pub fn resolve(&self) -> (img: Vec<u64>)
        requires
            self@.samples > 0,
        ensures
            img@.len() == self@.sums.len(),
            int_seq(img@) == resolved(self@),
            forall|i: int|
                0 <= i < img@.len() ==> (#[trigger] img@[i]) as int == resolved(self@)[i],
    {
        let len = self.sums.len();
        let mut img: Vec<u64> = Vec::new();
        let mut j: usize = 0;
        while j < len
            invariant
                j <= len,
                self.sums@.len() == len,
                self.samples > 0,
                img@.len() == j,
                forall|i: int|
                    0 <= i < j ==> img@[i] == self.sums@[i] / (self.samples as u64),
            decreases len - j,
        {
            img.push(self.sums[j] / (self.samples as u64));
            j = j + 1;
        }
        proof {
            assert(int_seq(img@) =~= resolved(self@));
        }
        img
    }
}

} // verus!
