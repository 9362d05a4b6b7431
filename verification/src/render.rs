//! Progressive renderer control state.
//!
//! The renderer owns a GPU-resident accumulation buffer and a sample
//! counter; the image shown after a frame is the running mean of every
//! sample accumulated since the last reset. The host drives it from a
//! single thread: a reset whenever a rendering parameter changes, then one
//! `advance_frame` per issued frame. This module verifies that control
//! state; the per-pixel arithmetic it governs is modeled and verified in
//! `crate::accumulation`, and the GPU submission around it is host work.

use vstd::prelude::*;

verus! {

/// Mathematical state of the renderer: the target size in pixels and the
/// number of samples accumulated since the last reset.
pub ghost struct TracerState {
    pub width: int,
    pub height: int,
    pub samples: int,
}

/// A renderer state is plausible when its fields fit the machine words
/// that carry them.
pub open spec fn tracer_inv(m: TracerState) -> bool {
    &&& 0 <= m.width <= u32::MAX
    &&& 0 <= m.height <= u32::MAX
    &&& 0 <= m.samples <= u32::MAX
}

/// Invalidation: the counter returns to zero; the target size stays.
pub open spec fn tracer_reset(m: TracerState) -> TracerState {
    TracerState { samples: 0, ..m }
}

/// One frame: the counter advances by exactly one; the target size stays.
pub open spec fn tracer_advance(m: TracerState) -> TracerState {
    TracerState { samples: m.samples + 1, ..m }
}

/// `k` consecutive frames from `m`, with no reset in between.
pub open spec fn tracer_advance_k(m: TracerState, k: nat) -> TracerState
    decreases k,
{
    if k == 0 {
        m
    } else {
        tracer_advance(tracer_advance_k(m, (k - 1) as nat))
    }
}

/// Resetting twice in a row, with no frame in between, leaves exactly the
/// state that one reset leaves: invalidation is idempotent.
pub proof fn lemma_reset_idempotent(m: TracerState)
    ensures
        tracer_reset(tracer_reset(m)) == tracer_reset(m),
{
}

/// After a reset followed by `k` frames, the sample counter reads exactly
/// `k`, whatever it read before, and the target size is untouched.
pub proof fn lemma_counter_counts_frames(m: TracerState, k: nat)
    ensures
        tracer_advance_k(tracer_reset(m), k).samples == k,
        tracer_advance_k(tracer_reset(m), k).width == m.width,
        tracer_advance_k(tracer_reset(m), k).height == m.height,
    decreases k,
{
    if k > 0 {
        lemma_counter_counts_frames(m, (k - 1) as nat);
    }
}

/// Control state of the progressive path tracer: the fixed target size and
/// the accumulated-sample counter the host advances and resets.
pub struct PathTracer {
    width: u32,
    height: u32,
    samples: u32,
}

impl View for PathTracer {
    type V = TracerState;

    closed spec fn view(&self) -> TracerState {
        TracerState {
            width: self.width as int,
            height: self.height as int,
            samples: self.samples as int,
        }
    }
}

impl PathTracer {
    /// Sets up a renderer for a `width` by `height` target; no sample has
    /// been accumulated yet.
    pub fn new(width: u32, height: u32) -> (t: PathTracer)
        ensures
            t@ == (TracerState { width: width as int, height: height as int, samples: 0 }),
            tracer_inv(t@),
    {
        PathTracer { width, height, samples: 0 }
    }

    /// Number of pixels in the target; each holds one accumulated sum.
    pub fn pixel_count(&self) -> (n: u64)
        ensures
            n == self@.width * self@.height,
    {
        proof {
            assert((self.width as u64) * (self.height as u64) <= u64::MAX) by (nonlinear_arith)
                requires
                    self.width <= u32::MAX,
                    self.height <= u32::MAX,
            ;
        }
        (self.width as u64) * (self.height as u64)
    }

    /// Width of the target in pixels.
    pub fn width(&self) -> (w: u32)
        ensures
            w == self@.width,
    {
        self.width
    }

    /// Height of the target in pixels.
    pub fn height(&self) -> (h: u32)
        ensures
            h == self@.height,
    {
        self.height
    }

    /// Samples accumulated since the last reset (or construction).
    pub fn sample_count(&self) -> (n: u32)
        ensures
            n == self@.samples,
    {
        self.samples
    }

    /// Discards all accumulated samples: the next completed frame will look
    /// like sample one, never a blend with anything rendered before.
    pub fn reset_samples(&mut self)
        ensures
            final(self)@ == tracer_reset(old(self)@),
            tracer_inv(final(self)@),
    {
        self.samples = 0;
    }

    /// Books one issued frame: the counter advances by exactly one, and the
    /// new count is returned for the kernel's blend factor.
    pub fn advance_frame(&mut self) -> (n: u32)
        requires
            old(self)@.samples < u32::MAX,
        ensures
            final(self)@ == tracer_advance(old(self)@),
            tracer_inv(final(self)@),
            n == old(self)@.samples + 1,
    {
        self.samples = self.samples + 1;
        self.samples
    }
}

} // verus!
