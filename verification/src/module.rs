//! Processing-module scaffolding whose state is integral: the pass-through
//! module, the damage engine's analysis schedule and the residual solver's
//! bookkeeping. Their sample processing works on floating-point audio and
//! stands outside this library.
use vstd::prelude::*;
use crate::config::{QualityMode, spec_core_fft_size};

verus! {

/// A module that passes audio through unchanged; the default for disabled
/// modules and in tests.
pub struct NoOpModule {
    module_name: &'static str,
}

impl NoOpModule {
    /// The name this module reports.
    pub closed spec fn spec_name(&self) -> &'static str {
        self.module_name
    }

    pub fn new(name: &'static str) -> (r: Self)
        ensures
            r.spec_name() == name,
    {
        NoOpModule { module_name: name }
    }

    /// Human-readable name for diagnostics: the name given at construction.
    pub fn name(&self) -> (r: &'static str)
        ensures
            r == self.spec_name(),
    {
        self.module_name
    }
}

/// Analysis runs on every frame whose running count is a multiple of this
/// interval (about every 200-300 ms at common block sizes).
pub const DAMAGE_UPDATE_INTERVAL: u64 = 32;

/// The damage posterior engine's schedule: it counts frames and analyses the
/// signal only periodically, since source quality is stable within a track.
pub struct DamagePosteriorEngine {
    /// Frames seen since construction or reset.
    pub frame_counter: u64,
    /// Frames between analyses.
    pub update_interval: u64,
    /// Sample rate the engine analyses at.
    pub sample_rate: u32,
    /// FFT size of the last frame's quality mode.
    pub fft_size: usize,
}

impl DamagePosteriorEngine {
    pub fn new() -> (r: Self)
        ensures
            r == (DamagePosteriorEngine {
                frame_counter: 0,
                update_interval: DAMAGE_UPDATE_INTERVAL,
                sample_rate: 48000,
                fft_size: 1024,
            }),
    {
        DamagePosteriorEngine {
            frame_counter: 0,
            update_interval: DAMAGE_UPDATE_INTERVAL,
            sample_rate: 48000,
            fft_size: 1024,
        }
    }

    pub fn name(&self) -> (r: &'static str)
        ensures
            r@ == "M1:DamagePosterior"@,
    {
        "M1:DamagePosterior"
    }

    /// Record the stream's sample rate; nothing else changes.
    pub fn init(&mut self, max_frame_size: usize, sample_rate: u32)
        ensures
            *final(self) == (DamagePosteriorEngine { sample_rate, ..*old(self) }),
    {
        self.sample_rate = sample_rate;
    }

    /// Start a frame of the given quality mode: adopt its core FFT size,
    /// count the frame, and return whether this frame is an analysis frame
    /// (its count is a multiple of the update interval).
    pub fn begin_frame(&mut self, quality: QualityMode) -> (analyse: bool)
        requires
            old(self).frame_counter < u64::MAX,
            old(self).update_interval != 0,
        ensures
            (*final(self), analyse) == spec_begin_frame(*old(self), quality),
    {
        self.fft_size = quality.core_fft_size();
        self.frame_counter = self.frame_counter + 1;
        self.frame_counter % self.update_interval == 0
    }

    /// Restart the frame count (the smoothing state is reset alongside).
    pub fn reset(&mut self)
        ensures
            *final(self) == (DamagePosteriorEngine { frame_counter: 0, ..*old(self) }),
    {
        self.frame_counter = 0;
    }
}

/// The engine after starting a frame of a quality mode, and whether that
/// frame is an analysis frame: the frame is counted, the mode's core FFT
/// size adopted, and analysis runs when the count is a multiple of the
/// update interval.
pub open spec fn spec_begin_frame(e: DamagePosteriorEngine, quality: QualityMode) -> (DamagePosteriorEngine, bool) {
    let next = DamagePosteriorEngine {
        frame_counter: (e.frame_counter + 1) as u64,
        fft_size: spec_core_fft_size(quality),
        ..e
    };
    (next, next.frame_counter % next.update_interval == 0)
}

/// The engine after `k` frames of one quality mode.
pub open spec fn spec_run_frames(e: DamagePosteriorEngine, quality: QualityMode, k: nat) -> DamagePosteriorEngine
    decreases k,
{
    if k == 0 {
        e
    } else {
        spec_begin_frame(spec_run_frames(e, quality, (k - 1) as nat), quality).0
    }
}

/// The analysis schedule: counting from a new or reset engine, the `k`-th
/// frame is analysed exactly when `k` is a multiple of
/// `DAMAGE_UPDATE_INTERVAL`; all other frames leave the damage estimates
/// alone.
pub proof fn lemma_damage_schedule(e: DamagePosteriorEngine, quality: QualityMode, k: nat)
    requires
        e.frame_counter == 0,
        e.update_interval == DAMAGE_UPDATE_INTERVAL,
        1 <= k < u64::MAX,
    ensures
        spec_run_frames(e, quality, k).frame_counter == k,
        spec_begin_frame(spec_run_frames(e, quality, (k - 1) as nat), quality).1 == (k % DAMAGE_UPDATE_INTERVAL as nat == 0),
    decreases k,
{
    assert(spec_run_frames(e, quality, (k - 1) as nat).frame_counter == k - 1) by {
        if k > 1 {
            lemma_damage_schedule(e, quality, (k - 1) as nat);
        }
    }
    assert(spec_run_frames(e, quality, (k - 1) as nat).update_interval == DAMAGE_UPDATE_INTERVAL) by {
        lemma_run_keeps_interval(e, quality, (k - 1) as nat);
    }
}

proof fn lemma_run_keeps_interval(e: DamagePosteriorEngine, quality: QualityMode, k: nat)
    ensures
        spec_run_frames(e, quality, k).update_interval == e.update_interval,
    decreases k,
{
    if k > 0 {
        lemma_run_keeps_interval(e, quality, (k - 1) as nat);
    }
}

/// The residual solver's bookkeeping: the bin count of the last lattice it
/// solved and the stream's sample rate.
pub struct InverseResidualSolver {
    /// Bins of the last solved core lattice (0 before the first one).
    pub num_bins: usize,
    /// Sample rate of the stream.
    pub sample_rate: u32,
}

impl InverseResidualSolver {
    pub fn new() -> (r: Self)
        ensures
            r == (InverseResidualSolver { num_bins: 0, sample_rate: 48000 }),
    {
        InverseResidualSolver { num_bins: 0, sample_rate: 48000 }
    }

    pub fn name(&self) -> (r: &'static str)
        ensures
            r@ == "M4:Solver"@,
    {
        "M4:Solver"
    }

    /// Record the stream's sample rate.
    pub fn init(&mut self, max_frame_size: usize, sample_rate: u32)
        ensures
            *final(self) == (InverseResidualSolver { sample_rate, ..*old(self) }),
    {
        self.sample_rate = sample_rate;
    }

    /// Note the bin count of the core lattice about to be solved. Returns
    /// whether there is anything to solve: an empty lattice is skipped and
    /// leaves the solver unchanged.
    pub fn begin_solve(&mut self, core_bins: usize) -> (solve: bool)
        ensures
            solve == (core_bins != 0),
            solve ==> *final(self) == (InverseResidualSolver { num_bins: core_bins, ..*old(self) }),
            !solve ==> *final(self) == *old(self),
    {
        if core_bins == 0 {
            return false;
        }
        self.num_bins = core_bins;
        true
    }

    pub fn reset(&mut self)
        ensures
            *final(self) == (InverseResidualSolver { num_bins: 0, ..*old(self) }),
    {
        self.num_bins = 0;
    }
}

/// The sample bookkeeping of one block of the mixer's delayed transient
/// repair, which holds back processed samples by about a hop so that
/// pre-echo can be suppressed before they are played.
#[derive(Debug, Clone, Copy, PartialEq, Eq, Structural)]
pub struct DelayedRepairPlan {
    /// Samples held back (at least the block, at most a hop when the
    /// buffer allows).
    pub hop_delay: usize,
    /// Samples held after appending the block.
    pub append_end: usize,
    /// Start of the region pre-echo suppression works on.
    pub repair_start: usize,
    /// Samples emitted at the front of the block; the rest of the block is
    /// silent.
    pub emit: usize,
    /// Samples held after emitting.
    pub held_after: usize,
}

/// `a - b`, or 0 when `b` is larger.
pub open spec fn sat_sub(a: int, b: int) -> int {
    if a >= b { a - b } else { 0 }
}

/// The plan of a block of `block_len` samples, with `held` samples already
/// held in buffers of `buffer_len` samples, at a hop of `hop_size`.
pub open spec fn spec_delayed_repair_plan(hop_size: usize, buffer_len: usize, held: usize, block_len: usize) -> DelayedRepairPlan {
    let capped = if hop_size as int <= sat_sub(buffer_len as int, block_len as int) {
        hop_size as int
    } else {
        sat_sub(buffer_len as int, block_len as int)
    };
    let hop_delay = if capped >= block_len { capped } else { block_len as int };
    let append_end = held + block_len;
    let ready = sat_sub(append_end, hop_delay);
    let emit = if ready <= block_len { ready } else { block_len as int };
    DelayedRepairPlan {
        hop_delay: hop_delay as usize,
        append_end: append_end as usize,
        repair_start: ready as usize,
        emit: emit as usize,
        held_after: (append_end - emit) as usize,
    }
}

/// The delayed transient repair's bookkeeping for one non-empty block.
pub fn delayed_repair_plan(hop_size: usize, buffer_len: usize, held: usize, block_len: usize) -> (r: DelayedRepairPlan)
    requires
        held + block_len <= buffer_len,
    ensures
        r == spec_delayed_repair_plan(hop_size, buffer_len, held, block_len),
{
    let room = buffer_len.saturating_sub(block_len);
    let capped = if hop_size <= room { hop_size } else { room };
    let hop_delay = if capped >= block_len { capped } else { block_len };
    let append_end = held + block_len;
    let ready = append_end.saturating_sub(hop_delay);
    let emit = if ready <= block_len { ready } else { block_len };
    DelayedRepairPlan { hop_delay, append_end, repair_start: ready, emit, held_after: append_end - emit }
}

/// The delay line conserves samples: what a block emits plus what stays
/// held is what was held plus the block; a block never emits more than its
/// own length, and at most the hop delay stays held whenever the block
/// fills the delay.
pub proof fn lemma_delayed_repair_conserves(hop_size: usize, buffer_len: usize, held: usize, block_len: usize)
    requires
        held + block_len <= buffer_len,
    ensures
        ({
            let p = spec_delayed_repair_plan(hop_size, buffer_len, held, block_len);
            &&& p.emit + p.held_after == held + block_len
            &&& p.emit <= block_len
            &&& p.hop_delay >= block_len
            &&& (p.emit < block_len ==> p.held_after <= p.hop_delay)
        }),
{
}

} // verus!
