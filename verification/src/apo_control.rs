//! Control logic of the Windows audio processing object (APO): the
//! decisions it makes around the floating-point DSP on every block and on
//! every lock/unlock, and the store of recent input used to prime fresh
//! engines.
//!
//! The host side measures what needs floating-point arithmetic (time
//! ratios, sample magnitudes) and hands in the outcomes; samples that are
//! only stored and copied are held by their f32 bit patterns.
use vstd::prelude::*;
use crate::io_engine::copy_passthrough;

verus! {

/// Frames between resets of the recent-spike count (about 30 s of 10 ms
/// blocks).
pub const DPC_ADAPTIVE_WINDOW: u64 = 3000;

/// Spikes within one window that switch to high-latency mode.
pub const DPC_ADAPTIVE_SPIKE_THRESHOLD: u32 = 3;

/// Calm frames that return high-latency mode to normal (about 60 s).
pub const DPC_CALM_RECOVERY: u64 = 6000;

/// What the host measured of the time since the previous block: whether it
/// exceeded the normal spike ratio (2.5 expected block periods) and whether
/// it exceeded the high-latency ratio (15 periods).
#[derive(Debug, Clone, Copy, PartialEq, Eq, Structural)]
pub struct CallInterval {
    pub exceeds_normal: bool,
    pub exceeds_high_latency: bool,
}

/// Adaptive detection of DPC latency spikes (the audio thread starved for
/// much longer than a block period). Spikes are counted at the normal
/// ratio; after enough of them within a window the detector switches to a
/// high-latency mode in which only severe spikes mute output, and after a
/// long calm it switches back.
#[derive(Debug, Clone, Copy, PartialEq, Eq, Structural)]
pub struct DpcTracker {
    pub spike_recent_count: u32,
    pub window_frame_count: u64,
    pub high_latency_mode: bool,
    pub calm_frame_count: u64,
}

/// The tracker's counters are consistent: the window position is below the
/// window size and at most one spike per frame of the window was counted.
pub open spec fn dpc_wf(t: DpcTracker) -> bool {
    &&& t.window_frame_count < DPC_ADAPTIVE_WINDOW
    &&& t.spike_recent_count <= t.window_frame_count + 1
}

/// The tracker after one block, and whether the block follows a spike that
/// must mute the next output: `interval` is `None` on the first block after
/// construction (no previous block to measure from); `frame_count` is the
/// block's number since lock.
pub open spec fn spec_dpc_step(t: DpcTracker, interval: Option<CallInterval>, frame_count: u64) -> (DpcTracker, bool) {
    let w1 = (t.window_frame_count + 1) as u64;
    let (w, spikes0) = if w1 >= DPC_ADAPTIVE_WINDOW { (0u64, 0u32) } else { (w1, t.spike_recent_count) };
    match interval {
        None => (DpcTracker { window_frame_count: w, spike_recent_count: spikes0, ..t }, false),
        Some(iv) => {
            let counted = iv.exceeds_normal && frame_count > 3;
            let spikes1 = if counted { (spikes0 + 1) as u32 } else { spikes0 };
            let calm1 = if counted { 0u64 } else { (t.calm_frame_count + 1) as u64 };
            let high1 = t.high_latency_mode || spikes1 >= DPC_ADAPTIVE_SPIKE_THRESHOLD;
            let recover = high1 && calm1 >= DPC_CALM_RECOVERY;
            let high2 = if recover { false } else { high1 };
            let spikes2 = if recover { 0u32 } else { spikes1 };
            let exceeds_current = if t.high_latency_mode { iv.exceeds_high_latency } else { iv.exceeds_normal };
            (
                DpcTracker {
                    spike_recent_count: spikes2,
                    window_frame_count: w,
                    high_latency_mode: high2,
                    calm_frame_count: calm1,
                },
                exceeds_current && frame_count > 3,
            )
        },
    }
}

impl DpcTracker {
    pub fn new() -> (r: Self)
        ensures
            r == (DpcTracker {
                spike_recent_count: 0,
                window_frame_count: 0,
                high_latency_mode: false,
                calm_frame_count: 0,
            }),
            dpc_wf(r),
    {
        DpcTracker { spike_recent_count: 0, window_frame_count: 0, high_latency_mode: false, calm_frame_count: 0 }
    }

    /// Account for one block. Returns whether a spike at the current
    /// mode's ratio was seen, in which case the next output is muted.
    pub fn on_block(&mut self, interval: Option<CallInterval>, frame_count: u64) -> (spike: bool)
        requires
            dpc_wf(*old(self)),
            old(self).calm_frame_count < u64::MAX,
        ensures
            dpc_wf(*final(self)),
            (*final(self), spike) == spec_dpc_step(*old(self), interval, frame_count),
    {
        let was_high = self.high_latency_mode;
        self.window_frame_count = self.window_frame_count + 1;
        if self.window_frame_count >= DPC_ADAPTIVE_WINDOW {
            self.window_frame_count = 0;
            self.spike_recent_count = 0;
        }
        match interval {
            None => false,
            Some(iv) => {
                if iv.exceeds_normal && frame_count > 3 {
                    self.spike_recent_count = self.spike_recent_count + 1;
                    self.calm_frame_count = 0;
                } else {
                    self.calm_frame_count = self.calm_frame_count + 1;
                }
                if !self.high_latency_mode && self.spike_recent_count >= DPC_ADAPTIVE_SPIKE_THRESHOLD {
                    self.high_latency_mode = true;
                }
                if self.high_latency_mode && self.calm_frame_count >= DPC_CALM_RECOVERY {
                    self.high_latency_mode = false;
                    self.spike_recent_count = 0;
                }
                let exceeds_current = if was_high { iv.exceeds_high_latency } else { iv.exceeds_normal };
                exceeds_current && frame_count > 3
            },
        }
    }
}

/// The detector never enters high-latency mode without having counted
/// the threshold of spikes within the current window, and it only leaves
/// that mode after the calm period; in normal mode every counted spike
/// mutes, in high-latency mode only severe ones do.
pub proof fn lemma_dpc_mode_changes(t: DpcTracker, interval: Option<CallInterval>, frame_count: u64)
    requires
        dpc_wf(t),
        t.calm_frame_count < u64::MAX,
    ensures
        ({
            let (t2, spike) = spec_dpc_step(t, interval, frame_count);
            &&& (!t.high_latency_mode && t2.high_latency_mode)
                ==> t2.spike_recent_count >= DPC_ADAPTIVE_SPIKE_THRESHOLD
            &&& (t.high_latency_mode && !t2.high_latency_mode)
                ==> t2.calm_frame_count >= DPC_CALM_RECOVERY && t2.spike_recent_count == 0
            &&& (spike && t.high_latency_mode) ==> interval->0.exceeds_high_latency
            &&& (spike && !t.high_latency_mode) ==> interval->0.exceeds_normal
            &&& spike ==> frame_count > 3
            &&& interval is None ==> !spike && t2.high_latency_mode == t.high_latency_mode
        }),
{
}

// ─── Recent input for priming fresh engines ───

/// Number of blocks a fresh engine is primed with.
pub const PRIME_FRAMES: usize = 32;

/// Input blocks are stored for priming on every block whose number is a
/// positive multiple of this interval.
pub const PRIME_STORE_INTERVAL: u64 = 16;

/// Recent input blocks (f32 bit patterns, per channel), kept in a ring of
/// `PRIME_FRAMES` slots, so that a fresh engine can be primed with real
/// audio instead of silence.
pub struct StoredPrimeAudio {
    blocks_l: Vec<Vec<u32>>,
    blocks_r: Vec<Vec<u32>>,
    /// Slots written so far (wrapping): the next block goes to slot
    /// `cursor % PRIME_FRAMES`.
    cursor: usize,
    /// Blocks stored, up to `PRIME_FRAMES`.
    count: usize,
    sample_rate: u32,
    frame_size: usize,
}

/// The slot of the `i`-th stored block, oldest first, for a ring whose
/// next write goes to slot `cursor % PRIME_FRAMES` and that holds `count`
/// blocks.
pub open spec fn prime_slot(cursor: int, count: int, i: int) -> int {
    (cursor - count + i) % (PRIME_FRAMES as int)
}

/// The contents of each slot.
pub open spec fn block_views(blocks: Seq<Vec<u32>>) -> Seq<Seq<u32>> {
    Seq::new(blocks.len(), |i: int| blocks[i]@)
}

/// The `count` blocks of a ring of slots, oldest first.
pub open spec fn ring_contents(slots: Seq<Seq<u32>>, cursor: int, count: int) -> Seq<Seq<u32>> {
    Seq::new(count as nat, |i: int| slots[prime_slot(cursor, count, i)])
}

impl StoredPrimeAudio {
    /// Every slot holds one block of the store's frame size per channel, and
    /// at most `PRIME_FRAMES` blocks count.
    pub closed spec fn wf(&self) -> bool {
        &&& self.blocks_l@.len() == PRIME_FRAMES
        &&& self.blocks_r@.len() == PRIME_FRAMES
        &&& forall|i: int| 0 <= i < PRIME_FRAMES ==> #[trigger] self.blocks_l@[i]@.len() == self.frame_size
        &&& forall|i: int| 0 <= i < PRIME_FRAMES ==> #[trigger] self.blocks_r@[i]@.len() == self.frame_size
        &&& self.count <= PRIME_FRAMES
    }

    /// The stored left-channel blocks, oldest first.
    pub closed spec fn stored_l(&self) -> Seq<Seq<u32>> {
        ring_contents(block_views(self.blocks_l@), self.cursor as int, self.count as int)
    }

    /// The stored right-channel blocks, oldest first.
    pub closed spec fn stored_r(&self) -> Seq<Seq<u32>> {
        ring_contents(block_views(self.blocks_r@), self.cursor as int, self.count as int)
    }

    /// The format the blocks were recorded in.
    pub closed spec fn spec_format(&self) -> (u32, usize) {
        (self.sample_rate, self.frame_size)
    }

    /// An empty store for a format: every slot silent.
    pub fn new(sample_rate: u32, frame_size: usize) -> (r: Self)
        ensures
            r.wf(),
            r.stored_l() == Seq::<Seq<u32>>::empty(),
            r.stored_r() == Seq::<Seq<u32>>::empty(),
            r.spec_format() == (sample_rate, frame_size),
    {
        let mut blocks_l: Vec<Vec<u32>> = Vec::new();
        let mut blocks_r: Vec<Vec<u32>> = Vec::new();
        let mut i: usize = 0;
        while i < PRIME_FRAMES
            invariant
                0 <= i <= PRIME_FRAMES,
                blocks_l@.len() == i,
                blocks_r@.len() == i,
                forall|j: int| 0 <= j < i ==> #[trigger] blocks_l@[j]@.len() == frame_size,
                forall|j: int| 0 <= j < i ==> #[trigger] blocks_r@[j]@.len() == frame_size,
            decreases PRIME_FRAMES - i,
        {
            blocks_l.push(vec![0u32; frame_size]);
            blocks_r.push(vec![0u32; frame_size]);
            i = i + 1;
        }
        let r = StoredPrimeAudio { blocks_l, blocks_r, cursor: 0, count: 0, sample_rate, frame_size };
        proof {
            assert(r.stored_l() =~= Seq::<Seq<u32>>::empty());
            assert(r.stored_r() =~= Seq::<Seq<u32>>::empty());
        }
        r
    }

    /// Whether the blocks are recorded in this format (only then are new
    /// blocks stored).
    pub fn has_format(&self, sample_rate: u32, frame_size: usize) -> (r: bool)
        ensures
            r == (self.spec_format() == (sample_rate, frame_size)),
    {
        self.sample_rate == sample_rate && self.frame_size == frame_size
    }

    /// Whether the store can prime an engine of this format: it was recorded
    /// in the same format and holds a full `PRIME_FRAMES` blocks.
    pub fn can_prime(&self, sample_rate: u32, frame_size: usize) -> (r: bool)
        requires
            self.wf(),
        ensures
            r == (self.spec_format() == (sample_rate, frame_size) && self.stored_l().len() == PRIME_FRAMES),
    {
        self.sample_rate == sample_rate && self.frame_size == frame_size && self.count >= PRIME_FRAMES
    }
}

/// The left-channel block a store writes over a slot holding `old`: the
/// first `frames` samples come from the input (de-interleaved when there are
/// two or more channels), the rest of the slot keeps its samples.
pub open spec fn left_block(old: Seq<u32>, input: Seq<u32>, channels: usize, frames: usize) -> Seq<u32> {
    Seq::new(old.len(), |f: int| if f < frames { if channels >= 2 { input[2 * f] } else { input[f] } } else { old[f] })
}

/// The right-channel block a store writes over a slot holding `old`: the
/// second channel's samples, or silence throughout for mono input.
pub open spec fn right_block(old: Seq<u32>, input: Seq<u32>, channels: usize, frames: usize) -> Seq<u32> {
    if channels >= 2 {
        Seq::new(old.len(), |f: int| if f < frames { input[2 * f + 1] } else { old[f] })
    } else {
        Seq::new(old.len(), |f: int| 0u32)
    }
}

/// The stored blocks after appending one to a ring of at most
/// `PRIME_FRAMES`: the oldest block falls out when the ring is full.
pub open spec fn ring_append(stored: Seq<Seq<u32>>, block: Seq<u32>) -> Seq<Seq<u32>> {
    if stored.len() < PRIME_FRAMES {
        stored.push(block)
    } else {
        stored.drop_first().push(block)
    }
}

proof fn lemma_usize_range_multiple_of_prime_frames()
    ensures
        (usize::MAX as int + 1) % (PRIME_FRAMES as int) == 0,
{
    assert(usize::MAX as int == 0xffff_ffff || usize::MAX as int == 0xffff_ffff_ffff_ffff);
}

proof fn lemma_slot_shift(c: int, c2: int, n: int, n2: int, i: int)
    requires
        c2 % (PRIME_FRAMES as int) == (c + 1) % (PRIME_FRAMES as int),
    ensures
        prime_slot(c2, n2, i) == prime_slot(c, n, i + 1 + n - n2),
{
    let m = PRIME_FRAMES as int;
    vstd::arithmetic::div_mod::lemma_fundamental_div_mod(c2, m);
    vstd::arithmetic::div_mod::lemma_fundamental_div_mod(c + 1, m);
    let q2 = c2 / m;
    let q1 = (c + 1) / m;
    assert(c2 - n2 + i == (c - n + (i + 1 + n - n2)) + m * (q2 - q1));
    vstd::arithmetic::div_mod::lemma_mod_multiples_vanish(q2 - q1, c - n + (i + 1 + n - n2), m);
    assert(m * (q2 - q1) + (c - n + (i + 1 + n - n2)) == c2 - n2 + i);
}

/// Writing a block over the next slot of a ring and moving the cursor on
/// appends it to the ring's contents.
proof fn lemma_ring_append_slots(slots: Seq<Seq<u32>>, idx: int, c: int, c2: int, n: int, n2: int, block: Seq<u32>)
    requires
        slots.len() == PRIME_FRAMES,
        0 <= n <= PRIME_FRAMES,
        n2 == (if n < PRIME_FRAMES { n + 1 } else { n }),
        idx == prime_slot(c, n, n),
        c2 % (PRIME_FRAMES as int) == (c + 1) % (PRIME_FRAMES as int),
    ensures
        ring_contents(slots.update(idx, block), c2, n2) =~= ring_append(ring_contents(slots, c, n), block),
{
    let m = PRIME_FRAMES as int;
    let expect = ring_append(ring_contents(slots, c, n), block);
    let got = ring_contents(slots.update(idx, block), c2, n2);
    vstd::arithmetic::div_mod::lemma_mod_bound(c - n + n, m);
    assert forall|i: int| 0 <= i < n2 implies got[i] == expect[i] by {
        lemma_slot_shift(c, c2, n, n2, i);
        let j = i + 1 + n - n2;
        let slot = prime_slot(c, n, j);
        vstd::arithmetic::div_mod::lemma_mod_bound(c - n + j, m);
        if j != n {
            assert(slot != idx) by {
                if slot == idx {
                    vstd::arithmetic::div_mod::lemma_fundamental_div_mod(c - n + j, m);
                    vstd::arithmetic::div_mod::lemma_fundamental_div_mod(c - n + n, m);
                    assert(false) by (nonlinear_arith)
                        requires
                            c - n + j == m * ((c - n + j) / m) + slot,
                            c - n + n == m * ((c - n + n) / m) + idx,
                            slot == idx,
                            0 < n - j < m,
                    ;
                }
            }
        }
    }
}

fn write_left(block: &mut Vec<u32>, input: &[u32], channels: usize, frames: usize)
    requires
        frames <= old(block)@.len(),
        channels >= 2 ==> 2 * frames <= input@.len(),
        channels < 2 ==> frames <= input@.len(),
    ensures
        final(block)@ == left_block(old(block)@, input@, channels, frames),
{
    let ghost old_block = block@;
    let ilen = input.len();
    let mut f: usize = 0;
    while f < frames
        invariant
            0 <= f <= frames <= block@.len(),
            ilen == input@.len(),
            block@.len() == old_block.len(),
            channels >= 2 ==> 2 * frames <= input@.len(),
            channels < 2 ==> frames <= input@.len(),
            forall|j: int| 0 <= j < f ==> block@[j] == (if channels >= 2 { input@[2 * j] } else { input@[j] }),
            forall|j: int| f <= j < block@.len() ==> block@[j] == old_block[j],
        decreases frames - f,
    {
        let v = if channels >= 2 { input[f * 2] } else { input[f] };
        block.set(f, v);
        f = f + 1;
    }
    assert(block@ =~= left_block(old_block, input@, channels, frames));
}

fn write_right(block: &mut Vec<u32>, input: &[u32], channels: usize, frames: usize)
    requires
        frames <= old(block)@.len(),
        channels >= 2 ==> 2 * frames <= input@.len(),
    ensures
        final(block)@ == right_block(old(block)@, input@, channels, frames),
{
    let ghost old_block = block@;
    let n = block.len();
    let limit = if channels >= 2 { frames } else { n };
    let ilen = input.len();
    let mut f: usize = 0;
    while f < limit
        invariant
            ilen == input@.len(),
            0 <= f <= limit <= block@.len(),
            n == block@.len(),
            block@.len() == old_block.len(),
            limit == (if channels >= 2 { frames } else { n }),
            channels >= 2 ==> 2 * frames <= input@.len(),
            forall|j: int| 0 <= j < f ==> block@[j] == (if channels >= 2 { input@[2 * j + 1] } else { 0u32 }),
            forall|j: int| f <= j < block@.len() ==> block@[j] == old_block[j],
        decreases limit - f,
    {
        let v = if channels >= 2 { input[f * 2 + 1] } else { 0 };
        block.set(f, v);
        f = f + 1;
    }
    assert(block@ =~= right_block(old_block, input@, channels, frames));
}

impl StoredPrimeAudio {
    /// Store a block of input: `frames` frames of interleaved input with
    /// `channels` channels (two or more are read as left/right pairs; mono
    /// input stores silence on the right). The block replaces the oldest
    /// once `PRIME_FRAMES` are stored.
    pub fn store_block(&mut self, input: &[u32], channels: usize, frames: usize)
        requires
            old(self).wf(),
            frames <= old(self).spec_format().1,
            channels >= 2 ==> 2 * frames <= input@.len(),
            channels < 2 ==> frames <= input@.len(),
        ensures
            final(self).wf(),
            final(self).spec_format() == old(self).spec_format(),
            final(self).stored_l().len() == old(self).stored_l().len()
                + (if old(self).stored_l().len() < PRIME_FRAMES { 1int } else { 0int }),
            final(self).stored_l() == ring_append(
                old(self).stored_l(),
                left_block(old(self).slot_l(), input@, channels, frames),
            ),
            final(self).stored_r() == ring_append(
                old(self).stored_r(),
                right_block(old(self).slot_r(), input@, channels, frames),
            ),
    {
        let idx = self.cursor % PRIME_FRAMES;
        let ghost old_blocks_l = self.blocks_l@;
        let ghost old_blocks_r = self.blocks_r@;
        let ghost c = self.cursor as int;
        let ghost n = self.count as int;
        write_left(&mut self.blocks_l[idx], input, channels, frames);
        write_right(&mut self.blocks_r[idx], input, channels, frames);
        self.cursor = self.cursor.wrapping_add(1);
        if self.count < PRIME_FRAMES {
            self.count = self.count + 1;
        }
        proof {
            lemma_usize_range_multiple_of_prime_frames();
            let m = PRIME_FRAMES as int;
            let c2 = self.cursor as int;
            assert(c2 % m == (c + 1) % m) by {
                if c + 1 > usize::MAX {
                    vstd::arithmetic::div_mod::lemma_fundamental_div_mod(usize::MAX as int + 1, m);
                    vstd::arithmetic::div_mod::lemma_mod_multiples_vanish(
                        (usize::MAX as int + 1) / m,
                        c2,
                        m,
                    );
                }
            }
            assert(idx as int == prime_slot(c, n, n)) by {
                assert(c - n + n == c);
            }
            assert forall|j: int| 0 <= j < PRIME_FRAMES implies #[trigger] self.blocks_l@[j]@.len() == self.frame_size by {
                if j != idx {
                    assert(self.blocks_l@[j] == old_blocks_l[j]);
                }
            }
            assert forall|j: int| 0 <= j < PRIME_FRAMES implies #[trigger] self.blocks_r@[j]@.len() == self.frame_size by {
                if j != idx {
                    assert(self.blocks_r@[j] == old_blocks_r[j]);
                }
            }
            let new_l = left_block(old_blocks_l[idx as int]@, input@, channels, frames);
            let new_r = right_block(old_blocks_r[idx as int]@, input@, channels, frames);
            assert(block_views(self.blocks_l@) =~= block_views(old_blocks_l).update(idx as int, new_l));
            assert(block_views(self.blocks_r@) =~= block_views(old_blocks_r).update(idx as int, new_r));
            lemma_ring_append_slots(block_views(old_blocks_l), idx as int, c, c2, n, self.count as int, new_l);
            lemma_ring_append_slots(block_views(old_blocks_r), idx as int, c, c2, n, self.count as int, new_r);
        }
    }

    /// The slot the next left-channel block will be written over.
    pub closed spec fn slot_l(&self) -> Seq<u32> {
        self.blocks_l@[(self.cursor % PRIME_FRAMES) as int]@
    }

    /// The slot the next right-channel block will be written over.
    pub closed spec fn slot_r(&self) -> Seq<u32> {
        self.blocks_r@[(self.cursor % PRIME_FRAMES) as int]@
    }

    /// The `i`-th stored block pair, oldest first.
    pub fn block_at(&self, i: usize) -> (r: (&Vec<u32>, &Vec<u32>))
        requires
            self.wf(),
            i < self.stored_l().len(),
        ensures
            r.0@ == self.stored_l()[i as int],
            r.1@ == self.stored_r()[i as int],
    {
        let start = self.cursor.wrapping_sub(self.count) % PRIME_FRAMES;
        let idx = (start + i) % PRIME_FRAMES;
        proof {
            lemma_usize_range_multiple_of_prime_frames();
            let m = PRIME_FRAMES as int;
            let c = self.cursor as int;
            let n = self.count as int;
            let w = self.cursor.wrapping_sub(self.count) as int;
            assert(w % m == (c - n) % m) by {
                if c - n < 0 {
                    vstd::arithmetic::div_mod::lemma_fundamental_div_mod(usize::MAX as int + 1, m);
                    vstd::arithmetic::div_mod::lemma_mod_multiples_vanish((usize::MAX as int + 1) / m, c - n, m);
                }
            }
            vstd::arithmetic::div_mod::lemma_add_mod_noop(w, i as int, m);
            vstd::arithmetic::div_mod::lemma_add_mod_noop(c - n, i as int, m);
            vstd::arithmetic::div_mod::lemma_mod_twice(i as int, m);
            vstd::arithmetic::div_mod::lemma_mod_pos_bound(w, m);
            vstd::arithmetic::div_mod::lemma_small_mod(i as nat, m as nat);
            assert(idx as int == prime_slot(c, n, i as int));
        }
        (&self.blocks_l[idx], &self.blocks_r[idx])
    }
}

/// The stored blocks after appending each of `blocks` in turn.
pub open spec fn ring_append_all(stored: Seq<Seq<u32>>, blocks: Seq<Seq<u32>>) -> Seq<Seq<u32>>
    decreases blocks.len(),
{
    if blocks.len() == 0 {
        stored
    } else {
        ring_append(ring_append_all(stored, blocks.drop_last()), blocks.last())
    }
}

/// The prime store always holds the most recent blocks in the order they
/// were stored: after any run of stores, its contents are the last
/// `PRIME_FRAMES` (or all, if fewer) of what it held followed by what was
/// stored; in particular after `PRIME_FRAMES` stores it holds exactly those.
pub proof fn lemma_prime_store_keeps_latest(stored: Seq<Seq<u32>>, blocks: Seq<Seq<u32>>)
    requires
        stored.len() <= PRIME_FRAMES,
    ensures
        ({
            let all = stored + blocks;
            let keep = if all.len() < PRIME_FRAMES { all.len() as int } else { PRIME_FRAMES as int };
            ring_append_all(stored, blocks) == all.subrange(all.len() - keep, all.len() as int)
        }),
        blocks.len() >= PRIME_FRAMES ==> ring_append_all(stored, blocks) == blocks.subrange(
            blocks.len() - PRIME_FRAMES,
            blocks.len() as int,
        ),
    decreases blocks.len(),
{
    let all = stored + blocks;
    if blocks.len() == 0 {
        assert(all =~= stored);
        assert(all.subrange(0, all.len() as int) =~= all);
    } else {
        let prev = blocks.drop_last();
        lemma_prime_store_keeps_latest(stored, prev);
        let all_p = stored + prev;
        assert(all =~= all_p.push(blocks.last()));
        let keep_p = if all_p.len() < PRIME_FRAMES { all_p.len() as int } else { PRIME_FRAMES as int };
        let r = all_p.subrange(all_p.len() - keep_p, all_p.len() as int);
        let keep = if all.len() < PRIME_FRAMES { all.len() as int } else { PRIME_FRAMES as int };
        if r.len() < PRIME_FRAMES {
            assert(r.push(blocks.last()) =~= all.subrange(all.len() - keep, all.len() as int));
        } else {
            assert(r.drop_first().push(blocks.last()) =~= all.subrange(all.len() - keep, all.len() as int));
        }
    }
    if blocks.len() >= PRIME_FRAMES {
        let keep = PRIME_FRAMES as int;
        assert(all.subrange(all.len() - keep, all.len() as int) =~= blocks.subrange(
            blocks.len() - PRIME_FRAMES,
            blocks.len() as int,
        ));
    }
}

// ─── Per-instance control state ───

/// Frames after start or after a muted block during which the click gate
/// stays off (and the recovery fade runs).
pub const CLICK_GATE_DELAY: u64 = 6;

/// Blocks after lock during which near-silent input is handled specially.
pub const STARTUP_GUARD_FRAMES: u64 = 8;

/// A rebuild within this many milliseconds of the last unlock, in the same
/// format, counts as rapid (a voice-chat client reshaping the audio graph).
pub const RAPID_REBUILD_WINDOW_MS: u64 = 500;

/// The format an instance last unlocked in, and how long ago.
#[derive(Debug, Clone, Copy, PartialEq, Eq, Structural)]
pub struct UnlockRecord {
    pub elapsed_ms: u64,
    pub sample_rate: u32,
    pub frame_size: usize,
}

/// What `lock_for_process` decided.
#[derive(Debug, Clone, Copy, PartialEq, Eq, Structural)]
pub struct LockPlan {
    /// Take over the engines a previous instance stored (same format).
    pub reuse_engines: bool,
    /// For fresh engines: prime them with the stored recent input rather
    /// than with silence.
    pub prime_with_stored_audio: bool,
    /// The rebuild follows an unlock in the same format within the rapid
    /// rebuild window.
    pub rapid_rebuild: bool,
    /// Seed the last output samples from the globally stored ones.
    pub seed_last_output: bool,
}

/// How a block is handled.
#[derive(Debug, Clone, Copy, PartialEq, Eq, Structural)]
pub enum BlockRoute {
    /// Nothing to copy (empty input or output): leave the output as it is.
    Nothing,
    /// Copy the input to the output unchanged.
    Passthrough,
    /// Run the engines on `frames` frames.
    Process { frames: usize, enabled: bool, transitioning: bool },
}

/// The decisions of a block's entry: its route and whether the engines must
/// reload their configuration (the shared configuration's version changed).
#[derive(Debug, Clone, Copy, PartialEq, Eq, Structural)]
pub struct BlockEntry {
    pub route: BlockRoute,
    pub reload_config: bool,
}

/// The integral control state of one APO instance.
#[derive(Debug, Clone, Copy, PartialEq, Eq, Structural)]
pub struct ApoControl {
    pub sample_rate: u32,
    pub channels: u16,
    pub frame_size: usize,
    /// Frames the scratch buffers hold (0 until locked).
    pub scratch_frames: usize,
    pub locked: bool,
    /// Engine init failed: pure passthrough, never DSP.
    pub bypass_mode: bool,
    /// Unlocked: pass audio through until the instance goes away.
    pub shutting_down: bool,
    /// Output fades in from silence after a muted block.
    pub gap_mute_active: bool,
    /// The click gate works from the first frame (last output was seeded).
    pub click_gate_armed: bool,
    pub last_config_version: u32,
    pub prev_enabled: bool,
    /// Blocks since lock or since the last muted block.
    pub process_frame_count: u64,
    /// Consecutive near-silent blocks that were faded out.
    pub zero_blocks_count: u32,
    /// The last block followed a latency spike: mute the next output.
    pub dpc_spike_recovery: bool,
    pub dpc: DpcTracker,
}

/// The samples of output a processed block of `frames` frames writes:
/// one per frame for mono, an interleaved pair per frame otherwise.
pub open spec fn output_needed(channels: u16, frames: int) -> int {
    if channels >= 2 { 2 * frames } else { frames }
}

/// Whether a block gets past the activity and size checks and so counts as
/// a processed block (it updates the enabled state and the block count).
pub open spec fn spec_block_counts(c: ApoControl, input_len: usize, output_len: usize) -> bool {
    &&& input_len != 0 && output_len != 0
    &&& c.locked && !c.bypass_mode && !c.shutting_down
    &&& c.channels != 0
    &&& input_len / (c.channels as usize) <= c.scratch_frames
}

/// The route of a block, given the control state, the input and output
/// lengths and the enabled flag read from shared memory. A counted block
/// whose output is too short for its frames passes through.
pub open spec fn spec_block_route(c: ApoControl, input_len: usize, output_len: usize, enabled: bool) -> BlockRoute {
    if input_len == 0 || output_len == 0 {
        BlockRoute::Nothing
    } else if !spec_block_counts(c, input_len, output_len) {
        BlockRoute::Passthrough
    } else if output_len < output_needed(c.channels, (input_len / (c.channels as usize)) as int) {
        BlockRoute::Passthrough
    } else {
        BlockRoute::Process {
            frames: (input_len / (c.channels as usize)) as usize,
            enabled,
            transitioning: enabled != c.prev_enabled,
        }
    }
}

/// Whether a block reaches the configuration check (it is not empty and the
/// instance is locked, not bypassed and not shutting down).
pub open spec fn spec_reaches_config(c: ApoControl, input_len: usize, output_len: usize) -> bool {
    input_len != 0 && output_len != 0 && c.locked && !c.bypass_mode && !c.shutting_down
}

/// A block's entry decisions and the state after them.
pub open spec fn spec_begin_block(c: ApoControl, input_len: usize, output_len: usize, shared: Option<(bool, u32)>) -> (BlockEntry, ApoControl) {
    let (enabled, version) = match shared {
        Some(p) => p,
        None => (false, 0u32),
    };
    let reaches = spec_reaches_config(c, input_len, output_len);
    let after_config = if reaches {
        ApoControl { last_config_version: version, ..c }
    } else {
        c
    };
    let route = spec_block_route(c, input_len, output_len, enabled);
    let entry = BlockEntry { route, reload_config: reaches && version != c.last_config_version };
    let after = if spec_block_counts(c, input_len, output_len) {
        ApoControl {
            prev_enabled: enabled,
            process_frame_count: (c.process_frame_count + 1) as u64,
            ..after_config
        }
    } else {
        after_config
    };
    (entry, after)
}

impl ApoControl {
    pub fn new() -> (r: Self)
        ensures
            r == (ApoControl {
                sample_rate: 48000,
                channels: 2,
                frame_size: 480,
                scratch_frames: 0,
                locked: false,
                bypass_mode: false,
                shutting_down: false,
                gap_mute_active: false,
                click_gate_armed: false,
                last_config_version: 0,
                prev_enabled: false,
                process_frame_count: 0,
                zero_blocks_count: 0,
                dpc_spike_recovery: false,
                dpc: DpcTracker {
                    spike_recent_count: 0,
                    window_frame_count: 0,
                    high_latency_mode: false,
                    calm_frame_count: 0,
                },
            }),
    {
        ApoControl {
            sample_rate: 48000,
            channels: 2,
            frame_size: 480,
            scratch_frames: 0,
            locked: false,
            bypass_mode: false,
            shutting_down: false,
            gap_mute_active: false,
            click_gate_armed: false,
            last_config_version: 0,
            prev_enabled: false,
            process_frame_count: 0,
            zero_blocks_count: 0,
            dpc_spike_recovery: false,
            dpc: DpcTracker::new(),
        }
    }

    /// Record the stream format (APO initialization).
    pub fn initialize(&mut self, sample_rate: u32, channels: u16)
        ensures
            *final(self) == (ApoControl { sample_rate, channels, ..*old(self) }),
    {
        self.sample_rate = sample_rate;
        self.channels = channels;
    }

    /// Enter permanent bypass (engine init failed): audio passes through
    /// unmodified.
    pub fn set_bypass_mode(&mut self)
        ensures
            *final(self) == (ApoControl { bypass_mode: true, locked: true, ..*old(self) }),
    {
        self.bypass_mode = true;
        self.locked = true;
    }

    /// Prepare for processing blocks of up to `frame_size` frames.
    /// `stored_engines` is the format of engines a previous instance left
    /// behind, `prime_store` the store of recent input, `last_unlock` the
    /// last instance's unlock, and `last_output_valid` whether a last output
    /// sample pair was stored globally.
    pub fn lock_for_process(
        &mut self,
        frame_size: usize,
        stored_engines: Option<(u32, usize)>,
        prime_store: Option<&StoredPrimeAudio>,
        last_unlock: Option<UnlockRecord>,
        last_output_valid: bool,
    ) -> (plan: LockPlan)
        requires
            prime_store matches Some(p) ==> p.wf(),
        ensures
            plan.reuse_engines == (stored_engines == Some((old(self).sample_rate, frame_size))),
            plan.prime_with_stored_audio == (!plan.reuse_engines && match prime_store {
                Some(p) => p.spec_format() == (old(self).sample_rate, frame_size)
                    && p.stored_l().len() == PRIME_FRAMES,
                None => false,
            }),
            plan.rapid_rebuild == match last_unlock {
                Some(u) => u.elapsed_ms < RAPID_REBUILD_WINDOW_MS && u.sample_rate == old(self).sample_rate
                    && u.frame_size == frame_size,
                None => false,
            },
            plan.seed_last_output == last_output_valid,
            *final(self) == (ApoControl {
                frame_size,
                scratch_frames: frame_size,
                last_config_version: 0,
                process_frame_count: if last_output_valid && plan.rapid_rebuild {
                    (CLICK_GATE_DELAY + 1) as u64
                } else {
                    0
                },
                gap_mute_active: false,
                click_gate_armed: last_output_valid && !plan.rapid_rebuild,
                prev_enabled: true,
                locked: true,
                ..*old(self)
            }),
    {
        self.frame_size = frame_size;
        self.scratch_frames = frame_size;
        self.last_config_version = 0;
        self.process_frame_count = 0;
        self.gap_mute_active = false;
        self.click_gate_armed = false;
        self.prev_enabled = true;
        let reuse = match stored_engines {
            Some((sr, fs)) => sr == self.sample_rate && fs == frame_size,
            None => false,
        };
        let prime = if reuse {
            false
        } else {
            match prime_store {
                Some(p) => p.can_prime(self.sample_rate, frame_size),
                None => false,
            }
        };
        let rapid = match last_unlock {
            Some(u) => u.elapsed_ms < RAPID_REBUILD_WINDOW_MS && u.sample_rate == self.sample_rate
                && u.frame_size == frame_size,
            None => false,
        };
        if last_output_valid {
            if rapid {
                self.click_gate_armed = false;
                self.gap_mute_active = false;
                self.process_frame_count = CLICK_GATE_DELAY + 1;
            } else {
                self.click_gate_armed = true;
            }
        }
        self.locked = true;
        LockPlan {
            reuse_engines: reuse,
            prime_with_stored_audio: prime,
            rapid_rebuild: rapid,
            seed_last_output: last_output_valid,
        }
    }

    /// Release for processing: later blocks pass through. Returns the format
    /// to record for rapid-rebuild detection.
    pub fn unlock_for_process(&mut self) -> (r: (u32, usize))
        ensures
            r == (old(self).sample_rate, old(self).frame_size),
            *final(self) == (ApoControl { shutting_down: true, locked: false, ..*old(self) }),
    {
        self.shutting_down = true;
        self.locked = false;
        (self.sample_rate, self.frame_size)
    }

    /// Enter a block: decide its route, note a configuration change
    /// (version read from shared memory; `None` without shared memory, which
    /// means disabled, version 0), and for a processed block count it and
    /// remember the enabled state.
    pub fn begin_block(&mut self, input_len: usize, output_len: usize, shared: Option<(bool, u32)>) -> (e: BlockEntry)
        requires
            old(self).process_frame_count < u64::MAX,
        ensures
            (e, *final(self)) == spec_begin_block(*old(self), input_len, output_len, shared),
    {
        let copy_len = if input_len < output_len { input_len } else { output_len };
        if copy_len == 0 {
            return BlockEntry { route: BlockRoute::Nothing, reload_config: false };
        }
        if !self.locked || self.bypass_mode {
            return BlockEntry { route: BlockRoute::Passthrough, reload_config: false };
        }
        if self.shutting_down {
            return BlockEntry { route: BlockRoute::Passthrough, reload_config: false };
        }
        let (enabled, version) = match shared {
            Some(p) => p,
            None => (false, 0),
        };
        let reload = version != self.last_config_version;
        if reload {
            self.last_config_version = version;
        }
        let ch = self.channels as usize;
        if ch == 0 {
            return BlockEntry { route: BlockRoute::Passthrough, reload_config: reload };
        }
        let frames = input_len / ch;
        if frames > self.scratch_frames {
            return BlockEntry { route: BlockRoute::Passthrough, reload_config: reload };
        }
        let transitioning = enabled != self.prev_enabled;
        self.prev_enabled = enabled;
        self.process_frame_count = self.process_frame_count + 1;
        let needed: bool = if ch >= 2 {
            assert(frames * 2 <= input_len) by (nonlinear_arith)
                requires
                    frames == input_len / ch,
                    ch >= 2,
            ;
            output_len < frames * 2
        } else {
            output_len < frames
        };
        if needed {
            return BlockEntry { route: BlockRoute::Passthrough, reload_config: reload };
        }
        BlockEntry { route: BlockRoute::Process { frames, enabled, transitioning }, reload_config: reload }
    }

    /// Enter a block with its buffers: the decisions of `begin_block`, and
    /// for a block routed to passthrough the dry copy of the first
    /// `min(input, output)` samples; the rest of the output, and all of it
    /// on any other route, is left as it was.
    pub fn enter_block(&mut self, input: &[u32], output: &mut [u32], shared: Option<(bool, u32)>) -> (e: BlockEntry)
        requires
            old(self).process_frame_count < u64::MAX,
        ensures
            (e, *final(self)) == spec_begin_block(*old(self), input@.len() as usize, old(output)@.len() as usize, shared),
            final(output)@.len() == old(output)@.len(),
            e.route == BlockRoute::Passthrough ==> {
                let n = if input@.len() < old(output)@.len() { input@.len() } else { old(output)@.len() };
                final(output)@ == input@.subrange(0, n as int) + old(output)@.subrange(n as int, old(output)@.len() as int)
            },
            e.route != BlockRoute::Passthrough ==> final(output)@ == old(output)@,
    {
        let e = self.begin_block(input.len(), output.len(), shared);
        if e.route == BlockRoute::Passthrough {
            let n = if input.len() < output.len() { input.len() } else { output.len() };
            copy_passthrough(input, output, n);
        }
        e
    }

    /// Account for the time since the previous processed block (`None` for
    /// the first); a spike at the current mode's ratio mutes the output at
    /// the end of this block.
    pub fn observe_interval(&mut self, interval: Option<CallInterval>)
        requires
            dpc_wf(old(self).dpc),
            old(self).dpc.calm_frame_count < u64::MAX,
        ensures
            dpc_wf(final(self).dpc),
            (final(self).dpc, true) == spec_dpc_step(old(self).dpc, interval, old(self).process_frame_count)
                ==> final(self).dpc_spike_recovery,
            *final(self) == (ApoControl {
                dpc: spec_dpc_step(old(self).dpc, interval, old(self).process_frame_count).0,
                dpc_spike_recovery: old(self).dpc_spike_recovery
                    || spec_dpc_step(old(self).dpc, interval, old(self).process_frame_count).1,
                ..*old(self)
            }),
    {
        let spike = self.dpc.on_block(interval, self.process_frame_count);
        if spike {
            self.dpc_spike_recovery = true;
        }
    }

    /// Whether near-silent input still gets startup handling.
    pub fn in_startup_guard(&self) -> (r: bool)
        ensures
            r == (self.process_frame_count <= STARTUP_GUARD_FRAMES),
    {
        self.process_frame_count <= STARTUP_GUARD_FRAMES
    }

    /// A near-silent block was faded out instead of processed.
    pub fn note_zero_block(&mut self)
        requires
            old(self).zero_blocks_count < u32::MAX,
        ensures
            *final(self) == (ApoControl { zero_blocks_count: (old(self).zero_blocks_count + 1) as u32, ..*old(self) }),
    {
        self.zero_blocks_count = self.zero_blocks_count + 1;
    }

    /// Whether output is at full level (no recovery fade): no gap mute is
    /// active, or its fade has run `CLICK_GATE_DELAY` frames. A finished
    /// recovery ends the gap mute.
    pub fn recovery_complete(&mut self) -> (full: bool)
        ensures
            full == (!old(self).gap_mute_active || old(self).process_frame_count >= CLICK_GATE_DELAY),
            *final(self) == (ApoControl { gap_mute_active: old(self).gap_mute_active && !full, ..*old(self) }),
    {
        let full = !self.gap_mute_active || self.process_frame_count >= CLICK_GATE_DELAY;
        if full && self.gap_mute_active {
            self.gap_mute_active = false;
        }
        full
    }

    /// Whether this block follows faded-out near-silent blocks and must fade
    /// in; the count of such blocks is cleared either way.
    pub fn take_post_zero_crossfade(&mut self) -> (fade_in: bool)
        ensures
            fade_in == (old(self).zero_blocks_count > 0),
            *final(self) == (ApoControl { zero_blocks_count: 0, ..*old(self) }),
    {
        if self.zero_blocks_count > 0 {
            self.zero_blocks_count = 0;
            true
        } else {
            false
        }
    }

    /// Whether this block must be muted after a latency spike; muting starts
    /// the recovery fade from the first frame again.
    pub fn take_spike_mute(&mut self) -> (mute: bool)
        ensures
            mute == old(self).dpc_spike_recovery,
            mute ==> *final(self) == (ApoControl {
                dpc_spike_recovery: false,
                gap_mute_active: true,
                process_frame_count: 0,
                ..*old(self)
            }),
            !mute ==> *final(self) == *old(self),
    {
        if self.dpc_spike_recovery {
            self.dpc_spike_recovery = false;
            self.gap_mute_active = true;
            self.process_frame_count = 0;
            true
        } else {
            false
        }
    }

    /// Whether the click gate inspects this block's output: only for enabled
    /// output outside a state change, after its delay (one frame when seeded
    /// with the last output, `CLICK_GATE_DELAY` frames otherwise).
    pub fn click_gate_active(&self, enabled: bool, transitioning: bool) -> (r: bool)
        ensures
            r == (enabled && !transitioning && (if self.click_gate_armed {
                self.process_frame_count >= 1
            } else {
                self.process_frame_count >= CLICK_GATE_DELAY
            })),
    {
        let ready = if self.click_gate_armed {
            self.process_frame_count >= 1
        } else {
            self.process_frame_count >= CLICK_GATE_DELAY
        };
        enabled && !transitioning && ready
    }

    /// The click gate found a boundary discontinuity: the block is muted and
    /// the recovery fade restarts.
    pub fn on_click_detected(&mut self)
        ensures
            *final(self) == (ApoControl { gap_mute_active: true, process_frame_count: 0, ..*old(self) }),
    {
        self.gap_mute_active = true;
        self.process_frame_count = 0;
    }

    /// Whether this block's input is stored for priming future engines.
    pub fn should_store_prime(&self) -> (r: bool)
        ensures
            r == (self.process_frame_count > 0 && self.process_frame_count % PRIME_STORE_INTERVAL == 0),
    {
        self.process_frame_count > 0 && self.process_frame_count % PRIME_STORE_INTERVAL == 0
    }
}

/// An instance that is not processing never touches audio: before lock,
/// in bypass and after unlock every non-empty block passes through (with
/// `enter_block`, its first `min(input, output)` samples are copied dry),
/// nothing reloads, and no state changes.
pub proof fn lemma_inactive_passes_through(c: ApoControl, input_len: usize, output_len: usize, shared: Option<(bool, u32)>)
    requires
        !c.locked || c.bypass_mode || c.shutting_down,
        input_len != 0,
        output_len != 0,
    ensures
        spec_begin_block(c, input_len, output_len, shared) == (BlockEntry { route: BlockRoute::Passthrough, reload_config: false }, c),
{
}

/// The engines reload a configuration version once: when a block has taken
/// up a version, a following block that sees the same version does not
/// reload, and one that sees another version does.
pub proof fn lemma_config_reload_on_change_only(
    c: ApoControl,
    input_len: usize,
    output_len: usize,
    enabled: bool,
    version: u32,
    next_input_len: usize,
    next_output_len: usize,
    next_enabled: bool,
    next_version: u32,
)
    requires
        spec_reaches_config(c, input_len, output_len),
        spec_reaches_config(c, next_input_len, next_output_len),
    ensures
        ({
            let after = spec_begin_block(c, input_len, output_len, Some((enabled, version))).1;
            let second = spec_begin_block(after, next_input_len, next_output_len, Some((next_enabled, next_version))).0;
            second.reload_config == (next_version != version)
        }),
{
}

/// An empty block (no input or no output) is left alone: nothing is
/// copied, nothing reloads and the control state does not change.
pub proof fn lemma_empty_block_untouched(c: ApoControl, input_len: usize, output_len: usize, shared: Option<(bool, u32)>)
    requires
        input_len == 0 || output_len == 0,
    ensures
        spec_begin_block(c, input_len, output_len, shared) == (BlockEntry { route: BlockRoute::Nothing, reload_config: false }, c),
{
}

/// A block with more frames than the scratch buffers hold passes through
/// dry instead of overrunning them (with `enter_block`, its first
/// `min(input, output)` samples are copied) and is not counted.
pub proof fn lemma_oversized_block_passes_through(c: ApoControl, input_len: usize, output_len: usize, shared: Option<(bool, u32)>)
    requires
        c.locked,
        !c.bypass_mode,
        !c.shutting_down,
        c.channels >= 1,
        input_len != 0,
        output_len != 0,
        input_len / (c.channels as usize) > c.scratch_frames,
    ensures
        spec_begin_block(c, input_len, output_len, shared).0.route == BlockRoute::Passthrough,
        spec_begin_block(c, input_len, output_len, shared).1.process_frame_count == c.process_frame_count,
        spec_begin_block(c, input_len, output_len, shared).1.prev_enabled == c.prev_enabled,
{
}

/// A processed block always fits: its frames fit the scratch buffers, the
/// input holds them (one sample per frame for mono, a pair per frame
/// otherwise) and the output has room for what is written.
pub proof fn lemma_processed_block_fits(c: ApoControl, input_len: usize, output_len: usize, enabled: bool)
    ensures
        spec_block_route(c, input_len, output_len, enabled) matches BlockRoute::Process { frames, .. } ==> {
            &&& frames <= c.scratch_frames
            &&& output_needed(c.channels, frames as int) <= input_len
            &&& output_needed(c.channels, frames as int) <= output_len
        },
{
    if spec_block_route(c, input_len, output_len, enabled) is Process {
        let ch = c.channels as int;
        let f = input_len as int / ch;
        assert(f * ch <= input_len) by (nonlinear_arith)
            requires
                ch >= 1,
                f == input_len as int / ch,
                input_len >= 0,
        ;
        assert(ch >= 2 ==> 2 * f <= f * ch) by (nonlinear_arith)
            requires
                f >= 0,
        ;
    }
}

/// A processed block records its enabled flag: after a block that passes
/// the activity and size checks, the state remembers the block's enabled
/// flag and counts one more block. So of two consecutive counted blocks the
/// second is a transition exactly when its enabled flag differs from the
/// first one's.
pub proof fn lemma_counted_block_records_enabled(
    c: ApoControl,
    input_len: usize,
    output_len: usize,
    enabled: bool,
    version: u32,
    next_input_len: usize,
    next_output_len: usize,
    next_enabled: bool,
    next_version: u32,
)
    requires
        input_len != 0,
        output_len != 0,
        c.locked,
        !c.bypass_mode,
        !c.shutting_down,
        c.channels != 0,
        input_len / (c.channels as usize) <= c.scratch_frames,
        c.process_frame_count < u64::MAX,
    ensures
        ({
            let after = spec_begin_block(c, input_len, output_len, Some((enabled, version))).1;
            let second = spec_begin_block(after, next_input_len, next_output_len, Some((next_enabled, next_version))).0;
            &&& after.prev_enabled == enabled
            &&& after.process_frame_count == c.process_frame_count + 1
            &&& (second.route matches BlockRoute::Process { transitioning, enabled: e2, .. } ==> {
                &&& e2 == next_enabled
                &&& transitioning == (next_enabled != enabled)
            })
        }),
{
}

/// Latency spikes interrupt the calm: a block with a counted spike (over
/// the normal ratio, after the first three blocks) clears the calm count,
/// any other measured block adds one to it, and the tracker leaves
/// high-latency mode only on a block without a counted spike that
/// completes `DPC_CALM_RECOVERY` calm blocks.
pub proof fn lemma_spike_resets_calm(t: DpcTracker, iv: CallInterval, frame_count: u64)
    requires
        t.calm_frame_count < u64::MAX,
    ensures
        ({
            let t2 = spec_dpc_step(t, Some(iv), frame_count).0;
            &&& (iv.exceeds_normal && frame_count > 3) ==> t2.calm_frame_count == 0
            &&& !(iv.exceeds_normal && frame_count > 3) ==> t2.calm_frame_count == t.calm_frame_count + 1
            &&& (t.high_latency_mode && !t2.high_latency_mode) ==> {
                &&& !(iv.exceeds_normal && frame_count > 3)
                &&& t.calm_frame_count + 1 >= DPC_CALM_RECOVERY
            }
        }),
{
}

/// A measured block after the first three mutes the next output exactly
/// when its interval exceeds the ratio of the mode the tracker was in: the
/// normal ratio in normal mode, the high-latency ratio in high-latency mode.
pub proof fn lemma_spike_mutes_by_mode(t: DpcTracker, iv: CallInterval, frame_count: u64)
    requires
        frame_count > 3,
    ensures
        spec_dpc_step(t, Some(iv), frame_count).1 == (if t.high_latency_mode {
            iv.exceeds_high_latency
        } else {
            iv.exceeds_normal
        }),
{
}

/// A block that is counted and whose output has room is processed: its
/// frame count is the input length over the channel count, its enabled flag
/// is the one read from shared memory (off when none could be read), and it
/// is a transition exactly when that flag differs from the last processed
/// block's.
pub proof fn lemma_counted_block_processes(
    c: ApoControl,
    input_len: usize,
    output_len: usize,
    shared: Option<(bool, u32)>,
)
    requires
        spec_block_counts(c, input_len, output_len),
        output_len >= output_needed(c.channels, (input_len / (c.channels as usize)) as int),
    ensures
        ({
            let enabled = match shared { Some(p) => p.0, None => false };
            spec_begin_block(c, input_len, output_len, shared).0.route == (BlockRoute::Process {
                frames: (input_len / (c.channels as usize)) as usize,
                enabled,
                transitioning: enabled != c.prev_enabled,
            })
        }),
{
}

} // verus!
