//! Real-time I/O control of the CoreAudio driver's processing engine.
//!
//! `IoEngine` holds the control state of one engine pair (left and right
//! mono engines): the stream format, whether the engines exist, the shared
//! configuration's last version and the warm-up count. Its `process` routes
//! each host block: blocks that must not be touched are copied through
//! here; the others are handed to the DSP engines with the facts the mix
//! needs. Samples travel as IEEE-754 f32 bit patterns.
use vstd::prelude::*;

verus! {

/// Processed blocks over which the wet signal fades in after start.
pub const WARMUP_FRAMES: u64 = 16;

/// Silent blocks each engine is primed with at start.
pub const PRIME_FRAMES: usize = 6;

/// The control state of the I/O engine.
#[derive(Debug, Clone, Copy, PartialEq, Eq, Structural)]
pub struct IoEngine {
    pub sample_rate: u32,
    pub channels: u16,
    pub frame_size: usize,
    pub active: bool,
    pub bypass_mode: bool,
    /// The left engine exists (started and not stopped or bypassed).
    pub engine_l: bool,
    /// The right engine exists.
    pub engine_r: bool,
    /// Frames each scratch buffer holds (0 before the first start).
    pub scratch_frames: usize,
    pub last_config_version: u32,
    pub prev_enabled: bool,
    pub process_frame_count: u64,
    pub shutting_down: bool,
}

/// What `start` asks of the host.
#[derive(Debug, Clone, Copy, PartialEq, Eq, Structural)]
pub struct StartPlan {
    /// Build a right-channel engine too (two or more channels).
    pub build_right: bool,
    /// Silent blocks to prime each engine with.
    pub prime_frames: usize,
}

/// How a block is handled.
#[derive(Debug, Clone, Copy, PartialEq, Eq, Structural)]
pub enum IoRoute {
    /// Nothing to copy: the output is left as it is.
    Nothing,
    /// The input was copied to the output unchanged.
    Passthrough,
    /// Run the left engine on `frames` mono frames.
    Mono { frames: usize, enabled: bool, transitioning: bool, frame_index: u64 },
    /// De-interleave `frames` stereo frames and run both engines.
    Stereo { frames: usize, enabled: bool, transitioning: bool, frame_index: u64 },
}

/// How processed frames become output.
#[derive(Debug, Clone, Copy, PartialEq, Eq, Structural)]
pub enum MixPlan {
    /// Output the dry input.
    Dry,
    /// Output the processed signal.
    Wet,
    /// Blend dry into wet by the warm-up curve.
    WarmupBlend,
    /// Cross-fade across the block: dry to wet when enabling, wet to dry
    /// when disabling.
    Crossfade { to_wet: bool },
}

/// The route of a block with the given input and output lengths.
pub open spec fn spec_io_route(e: IoEngine, input_len: usize, output_len: usize, enabled: bool) -> IoRoute {
    let copy_len = if input_len < output_len { input_len } else { output_len };
    let ch = e.channels as usize;
    let frames = if ch == 0 { 0 } else { input_len / ch };
    if copy_len == 0 {
        IoRoute::Nothing
    } else if !e.active || e.bypass_mode || e.shutting_down || ch == 0 {
        IoRoute::Passthrough
    } else if frames > e.scratch_frames {
        IoRoute::Passthrough
    } else if ch == 1 && output_len < frames {
        IoRoute::Passthrough
    } else if ch == 1 {
        IoRoute::Mono {
            frames: frames as usize,
            enabled,
            transitioning: enabled != e.prev_enabled,
            frame_index: (e.process_frame_count + 1) as u64,
        }
    } else if output_len < frames * 2 {
        IoRoute::Passthrough
    } else {
        IoRoute::Stereo {
            frames: frames as usize,
            enabled,
            transitioning: enabled != e.prev_enabled,
            frame_index: (e.process_frame_count + 1) as u64,
        }
    }
}

/// Whether a block gets past the activity and size checks (and so counts
/// as a processed block).
pub open spec fn spec_io_counts(e: IoEngine, input_len: usize, output_len: usize) -> bool {
    let copy_len = if input_len < output_len { input_len } else { output_len };
    let ch = e.channels as usize;
    &&& copy_len != 0
    &&& e.active && !e.bypass_mode && !e.shutting_down && ch != 0
    &&& input_len / ch <= e.scratch_frames
}

/// The state after a block.
pub open spec fn spec_io_after(e: IoEngine, input_len: usize, output_len: usize, enabled: bool) -> IoEngine {
    if spec_io_counts(e, input_len, output_len) {
        IoEngine { prev_enabled: enabled, process_frame_count: (e.process_frame_count + 1) as u64, ..e }
    } else {
        e
    }
}

/// The state after noting a configuration version, and whether it changed.
pub open spec fn spec_update_config(e: IoEngine, version: u32) -> (IoEngine, bool) {
    (IoEngine { last_config_version: version, ..e }, version != e.last_config_version)
}

/// Whether an f32 bit pattern is a finite number (its exponent is not all
/// ones).
pub open spec fn is_finite_bits(bits: u32) -> bool {
    (bits >> 23u32) & 0xffu32 != 0xffu32
}

/// The mix of a processed block.
pub open spec fn spec_mix_plan(clean: bool, transitioning: bool, enabled: bool, warmup_complete: bool) -> MixPlan {
    if !clean {
        MixPlan::Dry
    } else if transitioning {
        MixPlan::Crossfade { to_wet: enabled }
    } else if enabled {
        if warmup_complete { MixPlan::Wet } else { MixPlan::WarmupBlend }
    } else {
        MixPlan::Dry
    }
}

impl IoEngine {
    /// An inactive engine for 48 kHz stereo, 480-frame blocks.
    pub fn new() -> (r: Self)
        ensures
            r == (IoEngine {
                sample_rate: 48000,
                channels: 2,
                frame_size: 480,
                active: false,
                bypass_mode: false,
                engine_l: false,
                engine_r: false,
                scratch_frames: 0,
                last_config_version: 0,
                prev_enabled: false,
                process_frame_count: 0,
                shutting_down: false,
            }),
    {
        IoEngine {
            sample_rate: 48000,
            channels: 2,
            frame_size: 480,
            active: false,
            bypass_mode: false,
            engine_l: false,
            engine_r: false,
            scratch_frames: 0,
            last_config_version: 0,
            prev_enabled: false,
            process_frame_count: 0,
            shutting_down: false,
        }
    }

    /// Store the stream format (plugin initialization).
    pub fn initialize(&mut self, sample_rate: u32, channels: u16)
        ensures
            *final(self) == (IoEngine { sample_rate, channels, ..*old(self) }),
    {
        self.sample_rate = sample_rate;
        self.channels = channels;
    }

    /// Prepare for blocks of up to `frame_size` frames: the engines exist
    /// (a right one is built with two or more channels; one built before
    /// stays), the scratch buffers hold
    /// `frame_size` frames, the configuration version and warm-up count
    /// restart, and the engine is active.
    pub fn start(&mut self, frame_size: usize) -> (plan: StartPlan)
        requires
            frame_size <= usize::MAX / 2,
        ensures
            plan == (StartPlan { build_right: old(self).channels >= 2, prime_frames: PRIME_FRAMES }),
            *final(self) == (IoEngine {
                frame_size,
                engine_l: true,
                engine_r: old(self).channels >= 2 || old(self).engine_r,
                scratch_frames: frame_size,
                last_config_version: 0,
                process_frame_count: 0,
                shutting_down: false,
                active: true,
                ..*old(self)
            }),
    {
        self.frame_size = frame_size;
        self.engine_l = true;
        let build_right = self.channels >= 2;
        if build_right {
            self.engine_r = true;
        }
        self.scratch_frames = frame_size;
        self.last_config_version = 0;
        self.process_frame_count = 0;
        self.shutting_down = false;
        self.active = true;
        StartPlan { build_right, prime_frames: PRIME_FRAMES }
    }

    /// Release the engines; later blocks pass through.
    pub fn stop(&mut self)
        ensures
            *final(self) == (IoEngine {
                shutting_down: true,
                active: false,
                engine_l: false,
                engine_r: false,
                ..*old(self)
            }),
    {
        self.shutting_down = true;
        self.active = false;
        self.engine_l = false;
        self.engine_r = false;
    }

    pub fn is_active(&self) -> (r: bool)
        ensures
            r == self.active,
    {
        self.active
    }

    /// Enter bypass: no engines, and every block passes through (the engine
    /// still counts as active).
    pub fn set_bypass_mode(&mut self)
        ensures
            *final(self) == (IoEngine {
                bypass_mode: true,
                engine_l: false,
                engine_r: false,
                active: true,
                ..*old(self)
            }),
    {
        self.bypass_mode = true;
        self.engine_l = false;
        self.engine_r = false;
        self.active = true;
    }

    /// Note the shared configuration's version; returns whether it changed
    /// since the last call (the engines must then reload the configuration).
    pub fn update_config_from_shared(&mut self, version: u32) -> (reload: bool)
        ensures
            (*final(self), reload) == spec_update_config(*old(self), version),
    {
        if version == self.last_config_version {
            return false;
        }
        self.last_config_version = version;
        true
    }

    /// Whether the warm-up fade is over.
    pub fn warmup_complete(&self) -> (r: bool)
        ensures
            r == (self.process_frame_count >= WARMUP_FRAMES),
    {
        self.process_frame_count >= WARMUP_FRAMES
    }

    /// Route one block. Blocks that must not be touched (engine inactive,
    /// bypassed or stopped, no channels, more frames than the scratch
    /// buffers hold, or an output too short for the block's frames) have
    /// their first `min(input, output)` samples copied through; the rest is
    /// left to the engines. A block past the activity and size checks
    /// counts toward the warm-up and records the enabled state.
    pub fn process(&mut self, input: &[u32], output: &mut [u32], enabled: bool) -> (route: IoRoute)
        requires
            old(self).process_frame_count < u64::MAX,
        ensures
            route == spec_io_route(*old(self), input@.len() as usize, old(output)@.len() as usize, enabled),
            *final(self) == spec_io_after(*old(self), input@.len() as usize, old(output)@.len() as usize, enabled),
            final(output)@.len() == old(output)@.len(),
            route == IoRoute::Passthrough ==> {
                let n = if input@.len() < old(output)@.len() { input@.len() } else { old(output)@.len() };
                final(output)@ == input@.subrange(0, n as int) + old(output)@.subrange(n as int, old(output)@.len() as int)
            },
            route != IoRoute::Passthrough ==> final(output)@ == old(output)@,
    {
        let copy_len = if input.len() < output.len() { input.len() } else { output.len() };
        if copy_len == 0 {
            return IoRoute::Nothing;
        }
        if !self.active || self.bypass_mode || self.shutting_down {
            copy_passthrough(input, output, copy_len);
            return IoRoute::Passthrough;
        }
        let ch = self.channels as usize;
        if ch == 0 {
            copy_passthrough(input, output, copy_len);
            return IoRoute::Passthrough;
        }
        let frames = input.len() / ch;
        if frames > self.scratch_frames {
            copy_passthrough(input, output, copy_len);
            return IoRoute::Passthrough;
        }
        let transitioning = enabled != self.prev_enabled;
        self.prev_enabled = enabled;
        self.process_frame_count = self.process_frame_count + 1;
        let frame_index = self.process_frame_count;
        if ch == 1 {
            if output.len() < frames {
                copy_passthrough(input, output, copy_len);
                return IoRoute::Passthrough;
            }
            IoRoute::Mono { frames, enabled, transitioning, frame_index }
        } else {
            assert(frames * 2 <= input.len()) by (nonlinear_arith)
                requires
                    frames == input.len() / ch,
                    ch >= 2,
            ;
            if output.len() < frames * 2 {
                copy_passthrough(input, output, copy_len);
                return IoRoute::Passthrough;
            }
            IoRoute::Stereo { frames, enabled, transitioning, frame_index }
        }
    }
}

/// Copy the first `n` samples of `input` over those of `output`; the rest
/// of `output` is kept (the dry passthrough of a block).
pub fn copy_passthrough(input: &[u32], output: &mut [u32], n: usize)
    requires
        n <= input@.len(),
        n <= old(output)@.len(),
    ensures
        final(output)@ == input@.subrange(0, n as int) + old(output)@.subrange(n as int, old(output)@.len() as int),
{
    let mut i: usize = 0;
    while i < n
        invariant
            n <= input@.len(),
            n <= old(output)@.len(),
            0 <= i <= n,
            output@.len() == old(output)@.len(),
            forall|j: int| 0 <= j < i ==> output@[j] == input@[j],
            forall|j: int| i <= j < output@.len() ==> output@[j] == old(output)@[j],
        decreases n - i,
    {
        output[i] = input[i];
        i = i + 1;
    }
    assert(output@ =~= input@.subrange(0, n as int) + old(output)@.subrange(n as int, old(output)@.len() as int));
}

/// Whether the first `len` samples are all finite numbers (no NaN or
/// infinity came out of the engine).
pub fn is_buffer_clean(buf: &[u32], len: usize) -> (r: bool)
    requires
        len <= buf@.len(),
    ensures
        r == (forall|i: int| 0 <= i < len ==> is_finite_bits(#[trigger] buf@[i])),
{
    let mut i: usize = 0;
    while i < len
        invariant
            len <= buf@.len(),
            0 <= i <= len,
            forall|j: int| 0 <= j < i ==> is_finite_bits(#[trigger] buf@[j]),
        decreases len - i,
    {
        if (buf[i] >> 23u32) & 0xffu32 == 0xffu32 {
            return false;
        }
        i = i + 1;
    }
    true
}

/// How a processed block is mixed into the output: dry when the engine
/// output is not clean or the engine is disabled; a cross-fade on an
/// enabled-state change; wet, or blended during warm-up, when enabled.
pub fn mix_plan(clean: bool, transitioning: bool, enabled: bool, warmup_complete: bool) -> (r: MixPlan)
    ensures
        r == spec_mix_plan(clean, transitioning, enabled, warmup_complete),
{
    if !clean {
        MixPlan::Dry
    } else if transitioning {
        MixPlan::Crossfade { to_wet: enabled }
    } else if enabled {
        if warmup_complete { MixPlan::Wet } else { MixPlan::WarmupBlend }
    } else {
        MixPlan::Dry
    }
}

/// Split `frames` interleaved stereo frames into the left and right
/// buffers' first `frames` samples; the rest of both buffers is kept.
pub fn deinterleave_stereo(input: &[u32], frames: usize, left: &mut [u32], right: &mut [u32])
    requires
        2 * frames <= input@.len(),
        frames <= old(left)@.len(),
        frames <= old(right)@.len(),
    ensures
        final(left)@.len() == old(left)@.len(),
        final(right)@.len() == old(right)@.len(),
        forall|f: int| 0 <= f < frames ==> #[trigger] final(left)@[f] == input@[2 * f],
        forall|f: int| 0 <= f < frames ==> #[trigger] final(right)@[f] == input@[2 * f + 1],
        forall|f: int| frames <= f < old(left)@.len() ==> #[trigger] final(left)@[f] == old(left)@[f],
        forall|f: int| frames <= f < old(right)@.len() ==> #[trigger] final(right)@[f] == old(right)@[f],
{
    let mut f: usize = 0;
    while f < frames
        invariant
            2 * frames <= input.len(),
            frames <= old(left)@.len(),
            frames <= old(right)@.len(),
            0 <= f <= frames,
            left@.len() == old(left)@.len(),
            right@.len() == old(right)@.len(),
            forall|g: int| 0 <= g < f ==> #[trigger] left@[g] == input@[2 * g],
            forall|g: int| 0 <= g < f ==> #[trigger] right@[g] == input@[2 * g + 1],
            forall|g: int| f <= g < left@.len() ==> #[trigger] left@[g] == old(left)@[g],
            forall|g: int| f <= g < right@.len() ==> #[trigger] right@[g] == old(right)@[g],
        decreases frames - f,
    {
        left[f] = input[2 * f];
        right[f] = input[2 * f + 1];
        f = f + 1;
    }
}

/// Interleave the first `frames` samples of the left and right buffers into
/// the output's first `2 * frames` samples; the rest of the output is kept.
pub fn interleave_stereo(left: &[u32], right: &[u32], frames: usize, output: &mut [u32])
    requires
        frames <= left@.len(),
        frames <= right@.len(),
        2 * frames <= old(output)@.len(),
    ensures
        final(output)@.len() == old(output)@.len(),
        forall|f: int| 0 <= f < frames ==> #[trigger] final(output)@[2 * f] == left@[f],
        forall|f: int| 0 <= f < frames ==> #[trigger] final(output)@[2 * f + 1] == right@[f],
        forall|i: int| 2 * frames <= i < old(output)@.len() ==> #[trigger] final(output)@[i] == old(output)@[i],
{
    let mut f: usize = 0;
    while f < frames
        invariant
            frames <= left@.len(),
            frames <= right@.len(),
            2 * frames <= old(output)@.len(),
            2 * frames <= output.len(),
            0 <= f <= frames,
            output@.len() == old(output)@.len(),
            forall|g: int| 0 <= g < f ==> #[trigger] output@[2 * g] == left@[g],
            forall|g: int| 0 <= g < f ==> #[trigger] output@[2 * g + 1] == right@[g],
            forall|i: int| 2 * f <= i < output@.len() ==> #[trigger] output@[i] == old(output)@[i],
        decreases frames - f,
    {
        output[2 * f] = left[f];
        output[2 * f + 1] = right[f];
        f = f + 1;
    }
}

/// An engine that is not running never touches audio: before start, after
/// stop and in bypass every non-empty block is copied through and the
/// control state stays as it is.
pub proof fn lemma_idle_engine_passes_through(e: IoEngine, input_len: usize, output_len: usize, enabled: bool)
    requires
        !e.active || e.bypass_mode || e.shutting_down,
        input_len != 0,
        output_len != 0,
    ensures
        spec_io_route(e, input_len, output_len, enabled) == IoRoute::Passthrough,
        spec_io_after(e, input_len, output_len, enabled) == e,
{
}

/// A configuration version is taken up once: right after a call with a
/// version, a second call with the same version asks for no reload, and a
/// call with another version does.
pub proof fn lemma_config_version_taken_once(e: IoEngine, version: u32, next: u32)
    ensures
        !spec_update_config(spec_update_config(e, version).0, version).1,
        spec_update_config(spec_update_config(e, version).0, next).1 == (next != version),
{
}

/// Splitting stereo frames and interleaving them again gives the input
/// frames back.
pub proof fn lemma_interleave_inverts_deinterleave(input: Seq<u32>, left: Seq<u32>, right: Seq<u32>, frames: int, output: Seq<u32>)
    requires
        0 <= frames,
        2 * frames <= input.len(),
        frames <= left.len(),
        frames <= right.len(),
        2 * frames <= output.len(),
        forall|f: int| 0 <= f < frames ==> #[trigger] left[f] == input[2 * f],
        forall|f: int| 0 <= f < frames ==> #[trigger] right[f] == input[2 * f + 1],
        forall|f: int| 0 <= f < frames ==> #[trigger] output[2 * f] == left[f],
        forall|f: int| 0 <= f < frames ==> #[trigger] output[2 * f + 1] == right[f],
    ensures
        output.subrange(0, 2 * frames) == input.subrange(0, 2 * frames),
{
    assert forall|i: int| 0 <= i < 2 * frames implies output[i] == input[i] by {
        let f = i / 2;
        if i % 2 == 0 {
            assert(i == 2 * f);
            assert(output[2 * f] == left[f]);
        } else {
            assert(i == 2 * f + 1);
            assert(output[2 * f + 1] == right[f]);
        }
    }
    assert(output.subrange(0, 2 * frames) =~= input.subrange(0, 2 * frames));
}

/// A block handed to the engines always fits: its frames fit the scratch
/// buffers, and both input and output hold them (one sample per frame for
/// mono, an interleaved pair per frame for stereo).
pub proof fn lemma_routed_block_fits(e: IoEngine, input_len: usize, output_len: usize, enabled: bool)
    ensures
        spec_io_route(e, input_len, output_len, enabled) matches IoRoute::Mono { frames, .. } ==> {
            &&& frames <= e.scratch_frames
            &&& frames <= input_len
            &&& frames <= output_len
        },
        spec_io_route(e, input_len, output_len, enabled) matches IoRoute::Stereo { frames, .. } ==> {
            &&& frames <= e.scratch_frames
            &&& 2 * frames <= input_len
            &&& 2 * frames <= output_len
        },
{
    let ch = e.channels as int;
    if ch >= 1 {
        let f = input_len as int / ch;
        assert(f * ch <= input_len) by (nonlinear_arith)
            requires
                ch >= 1,
                f == input_len as int / ch,
                input_len >= 0,
        ;
        assert(ch >= 2 ==> 2 * f <= f * ch) by (nonlinear_arith)
            requires
                f >= 0,
        ;
    }
}

/// The NaN/Inf guard and the mix order: output of the engine that is not
/// clean is never played (the block goes out dry, whatever the other
/// flags); clean output cross-fades on an enabled-state change, and
/// otherwise goes out wet (blended during warm-up) when enabled and dry
/// when disabled.
pub proof fn lemma_mix_plan_guards(clean: bool, transitioning: bool, enabled: bool, warmup_complete: bool)
    ensures
        !clean ==> spec_mix_plan(clean, transitioning, enabled, warmup_complete) == MixPlan::Dry,
        clean && transitioning ==> spec_mix_plan(clean, transitioning, enabled, warmup_complete)
            == (MixPlan::Crossfade { to_wet: enabled }),
        clean && !transitioning && !enabled ==> spec_mix_plan(clean, transitioning, enabled, warmup_complete) == MixPlan::Dry,
        clean && !transitioning && enabled && warmup_complete
            ==> spec_mix_plan(clean, transitioning, enabled, warmup_complete) == MixPlan::Wet,
        clean && !transitioning && enabled && !warmup_complete
            ==> spec_mix_plan(clean, transitioning, enabled, warmup_complete) == MixPlan::WarmupBlend,
        (spec_mix_plan(clean, transitioning, enabled, warmup_complete) is Wet
            || spec_mix_plan(clean, transitioning, enabled, warmup_complete) is WarmupBlend
            || spec_mix_plan(clean, transitioning, enabled, warmup_complete) is Crossfade) ==> clean,
{
}

/// A counted IO block records its enabled flag and advances the frame
/// index: the next routed block carries the following index and is a
/// transition exactly when its enabled flag differs from this block's.
pub proof fn lemma_io_block_records_enabled(
    e: IoEngine,
    input_len: usize,
    output_len: usize,
    enabled: bool,
    next_input_len: usize,
    next_output_len: usize,
    next_enabled: bool,
)
    requires
        spec_io_counts(e, input_len, output_len),
        e.process_frame_count < u64::MAX - 1,
    ensures
        ({
            let after = spec_io_after(e, input_len, output_len, enabled);
            let next = spec_io_route(after, next_input_len, next_output_len, next_enabled);
            &&& after.prev_enabled == enabled
            &&& after.process_frame_count == e.process_frame_count + 1
            &&& (next matches IoRoute::Mono { enabled: e2, transitioning, frame_index, .. } ==> {
                &&& e2 == next_enabled
                &&& transitioning == (next_enabled != enabled)
                &&& frame_index == e.process_frame_count + 2
            })
            &&& (next matches IoRoute::Stereo { enabled: e2, transitioning, frame_index, .. } ==> {
                &&& e2 == next_enabled
                &&& transitioning == (next_enabled != enabled)
                &&& frame_index == e.process_frame_count + 2
            })
        }),
{
}

} // verus!
