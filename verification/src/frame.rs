//! Frame and hop bookkeeping: how host callback blocks, analysis frames and
//! hops relate. The parameters are fixed at init time; the clock counts
//! samples toward hop boundaries.
use vstd::prelude::*;
use vstd::arithmetic::div_mod::{lemma_fundamental_div_mod, lemma_fundamental_div_mod_converse};
use crate::config::{QualityMode, spec_core_fft_size, spec_hop_size};

verus! {

/// Micro lattice FFT size (transient detail).
pub const MICRO_FFT_SIZE: usize = 256;

/// Core lattice FFT size of the standard quality mode.
pub const CORE_FFT_SIZE: usize = 1024;

/// Air lattice FFT size (high-frequency stability).
pub const AIR_FFT_SIZE: usize = 2048;

/// Runtime frame parameters derived from the configuration at init time;
/// immutable while processing.
#[derive(Debug, Clone, Copy, PartialEq, Eq, Structural)]
pub struct FrameParams {
    /// Host callback block size (e.g. 128 for a browser AudioWorklet).
    pub host_block_size: usize,
    /// Core lattice FFT size (from the quality mode).
    pub core_fft_size: usize,
    /// Micro lattice FFT size.
    pub micro_fft_size: usize,
    /// Air lattice FFT size.
    pub air_fft_size: usize,
    /// Hop size = core_fft_size / 4 (75% overlap).
    pub hop_size: usize,
    /// Sample rate (Hz).
    pub sample_rate: u32,
}

/// The parameters built for a block size, rate and quality mode.
pub open spec fn spec_frame_params(host_block_size: usize, sample_rate: u32, quality: QualityMode) -> FrameParams {
    FrameParams {
        host_block_size,
        core_fft_size: spec_core_fft_size(quality),
        micro_fft_size: MICRO_FFT_SIZE,
        air_fft_size: AIR_FFT_SIZE,
        hop_size: spec_hop_size(quality),
        sample_rate,
    }
}

impl FrameParams {
    pub fn new(host_block_size: usize, sample_rate: u32, quality: QualityMode) -> (r: Self)
        ensures
            r == spec_frame_params(host_block_size, sample_rate, quality),
    {
        let core_fft_size = quality.core_fft_size();
        FrameParams {
            host_block_size,
            core_fft_size,
            micro_fft_size: MICRO_FFT_SIZE,
            air_fft_size: AIR_FFT_SIZE,
            hop_size: quality.hop_size(),
            sample_rate,
        }
    }

    /// Number of host blocks needed to accumulate one hop; 0 when the block
    /// is larger than a hop (each block then triggers hops itself) or empty.
    pub fn blocks_per_hop(&self) -> (r: usize)
        ensures
            self.host_block_size == 0 ==> r == 0,
            self.host_block_size != 0 ==> r == self.hop_size / self.host_block_size,
    {
        if self.host_block_size == 0 {
            return 0;
        }
        self.hop_size / self.host_block_size
    }

    /// Number of hops per host block; 0 when a hop is larger than a block
    /// (several blocks make one hop) or the hop size is 0.
    pub fn hops_per_block(&self) -> (r: usize)
        ensures
            self.hop_size == 0 ==> r == 0,
            self.hop_size != 0 ==> r == self.host_block_size / self.hop_size,
    {
        if self.hop_size == 0 {
            return 0;
        }
        self.host_block_size / self.hop_size
    }

    /// Number of bins in the core lattice (fft_size / 2 + 1).
    pub fn core_bins(&self) -> (r: usize)
        ensures
            r == self.core_fft_size / 2 + 1,
    {
        self.core_fft_size / 2 + 1
    }
}

impl Default for FrameParams {
    fn default() -> (r: Self)
        ensures
            r == spec_frame_params(128, 48000, QualityMode::Standard),
    {
        Self::new(128, 48000, QualityMode::Standard)
    }
}

/// Pending samples and frame count after feeding `n` samples to a clock that
/// had `pending` samples toward the next hop and had counted `frames` frames.
pub open spec fn spec_advance(pending: nat, frames: nat, hop: nat, n: nat) -> (nat, nat) {
    ((pending + n) % hop, frames + (pending + n) / hop)
}

/// Tracks hop-aligned frame accumulation; tells the orchestrator when a full
/// analysis frame is ready.
#[derive(Debug, Clone, Copy)]
pub struct FrameClock {
    /// Samples accumulated since the last hop boundary.
    samples_since_hop: usize,
    /// Hop size (at least 1).
    hop_size: usize,
    /// Total analysis frames produced.
    analysis_frame_count: u64,
}

impl FrameClock {
    /// The clock's hop is positive and the pending count is below it.
    pub closed spec fn wf(self) -> bool {
        self.hop_size >= 1 && self.samples_since_hop < self.hop_size
    }

    /// Samples accumulated toward the next hop.
    pub closed spec fn pending(self) -> nat {
        self.samples_since_hop as nat
    }

    /// The hop size the clock counts in.
    pub closed spec fn hop(self) -> nat {
        self.hop_size as nat
    }

    /// Analysis frames produced since init or reset.
    pub closed spec fn frames(self) -> nat {
        self.analysis_frame_count as nat
    }

    /// What well-formedness says of the observable counters.
    pub proof fn lemma_wf_bounds(self)
        requires
            self.wf(),
        ensures
            1 <= self.hop() <= usize::MAX,
            self.pending() < self.hop(),
            self.frames() <= u64::MAX,
    {
    }

    /// A clock with no pending samples and no frames; a hop size of 0 is
    /// taken as 1.
    pub fn new(hop_size: usize) -> (r: Self)
        ensures
            r.wf(),
            r.pending() == 0,
            r.frames() == 0,
            r.hop() == (if hop_size >= 1 { hop_size } else { 1 }),
    {
        let hop: usize = if hop_size >= 1 { hop_size } else { 1 };
        FrameClock { samples_since_hop: 0, hop_size: hop, analysis_frame_count: 0 }
    }

    /// Feed samples into the clock. Returns the number of hops that
    /// completed during this block (0 if not enough samples yet).
    pub fn advance(&mut self, num_samples: usize) -> (hops: usize)
        requires
            old(self).hop() >= 1,
            old(self).pending() + num_samples <= usize::MAX,
            old(self).frames() + (old(self).pending() + num_samples) / (old(self).hop() as int)
                <= u64::MAX,
        ensures
            final(self).wf(),
            hops == (old(self).pending() + num_samples) / (old(self).hop() as int),
            (final(self).pending(), final(self).frames()) == spec_advance(
                old(self).pending(),
                old(self).frames(),
                old(self).hop(),
                num_samples as nat,
            ),
            final(self).hop() == old(self).hop(),
    {
        let total = self.samples_since_hop + num_samples;
        let hops = total / self.hop_size;
        let rest = total % self.hop_size;
        proof {
            lemma_fundamental_div_mod(total as int, self.hop_size as int);
            vstd::arithmetic::div_mod::lemma_mod_pos_bound(total as int, self.hop_size as int);
        }
        self.samples_since_hop = rest;
        self.analysis_frame_count = self.analysis_frame_count + hops as u64;
        hops
    }

    /// Total analysis frames produced since init/reset.
    pub fn frame_count(&self) -> (r: u64)
        ensures
            r == self.frames(),
    {
        self.analysis_frame_count
    }

    /// Samples accumulated toward the next hop.
    pub fn pending_samples(&self) -> (r: usize)
        ensures
            r == self.pending(),
    {
        self.samples_since_hop
    }

    /// Count in a new hop size (a hop size of 0 is taken as 1). Pending
    /// samples and the frame count are kept; the next `advance` counts the
    /// pending samples toward the new hop.
    pub fn set_hop_size(&mut self, hop_size: usize)
        ensures
            final(self).hop() == (if hop_size >= 1 { hop_size } else { 1 }),
            final(self).pending() == old(self).pending(),
            final(self).frames() == old(self).frames(),
    {
        self.hop_size = if hop_size >= 1 { hop_size } else { 1 };
    }

    /// Clear pending samples and the frame count; the hop size is kept.
    pub fn reset(&mut self)
        requires
            old(self).wf(),
        ensures
            final(self).wf(),
            final(self).pending() == 0,
            final(self).frames() == 0,
            final(self).hop() == old(self).hop(),
    {
        self.samples_since_hop = 0;
        self.analysis_frame_count = 0;
    }
}

/// Feeding `a` samples and then `b` samples leaves the clock exactly as
/// feeding `a + b` samples at once: accumulation does not depend on how
/// the input is split into blocks.
pub proof fn lemma_advance_additive(pending: nat, frames: nat, hop: nat, a: nat, b: nat)
    requires
        hop >= 1,
        pending < hop,
    ensures
        ({
            let (p1, f1) = spec_advance(pending, frames, hop, a);
            spec_advance(p1, f1, hop, b) == spec_advance(pending, frames, hop, a + b)
        }),
{
    let h = hop as int;
    let x = (pending + a) as int;
    let q1 = x / h;
    let r1 = x % h;
    lemma_fundamental_div_mod(x, h);
    let y = r1 + b;
    let q2 = y / h;
    let r2 = y % h;
    lemma_fundamental_div_mod(y, h);
    assert(0 <= r1 < h) by {
        vstd::arithmetic::div_mod::lemma_mod_pos_bound(x, h);
    }
    assert(0 <= r2 < h) by {
        vstd::arithmetic::div_mod::lemma_mod_pos_bound(y, h);
    }
    assert(x + b == (q1 + q2) * h + r2) by (nonlinear_arith)
        requires
            x == h * q1 + r1,
            y == h * q2 + r2,
            y == r1 + b,
    ;
    lemma_fundamental_div_mod_converse(x + b, h, q1 + q2, r2);
    assert(q1 >= 0) by {
        vstd::arithmetic::div_mod::lemma_div_pos_is_pos(x, h);
    }
    assert(q2 >= 0) by {
        vstd::arithmetic::div_mod::lemma_div_pos_is_pos(y, h);
    }
}

/// Samples are conserved: frames times hop plus pending samples grows by
/// exactly the number of samples fed.
pub proof fn lemma_advance_conserves_samples(pending: nat, frames: nat, hop: nat, n: nat)
    requires
        hop >= 1,
    ensures
        ({
            let (p, f) = spec_advance(pending, frames, hop, n);
            f * hop + p == frames * hop + pending + n && p < hop
        }),
{
    let h = hop as int;
    let x = (pending + n) as int;
    lemma_fundamental_div_mod(x, h);
    vstd::arithmetic::div_mod::lemma_mod_pos_bound(x, h);
    vstd::arithmetic::div_mod::lemma_div_pos_is_pos(x, h);
    let q = x / h;
    let r = x % h;
    assert((frames + q) * h + r == frames * h + x) by (nonlinear_arith)
        requires
            x == h * q + r,
    ;
}

} // verus!
