//! The frame orchestrator: a ring buffer holding the most recent input
//! samples, and the hop clock that tells later stages when a new analysis
//! frame is ready.
//!
//! The orchestrator only stores and copies samples, so it holds each sample
//! by the bit pattern of its f32 value; a read gives back exactly the bits
//! that were written.
use vstd::prelude::*;
use vstd::arithmetic::div_mod::{lemma_mod_pos_bound, lemma_fundamental_div_mod_converse, lemma_small_mod};
use crate::config::{QualityMode, spec_hop_size};
use crate::frame::{FrameClock, AIR_FFT_SIZE, spec_advance};

verus! {

/// Ring size after init: room for the largest (air) FFT window plus
/// overlap.
pub const RING_SIZE: usize = 4096;

/// The ring as a sequence, oldest sample first: slot `(pos + k) % len`
/// holds the `k`-th oldest sample.
pub open spec fn ring_window(ring: Seq<u32>, pos: int) -> Seq<u32> {
    Seq::new(ring.len(), |k: int| ring[(pos + k) % (ring.len() as int)])
}

/// The last `n` elements of a sequence.
pub open spec fn last_n(s: Seq<u32>, n: int) -> Seq<u32> {
    s.subrange(s.len() - n, s.len() as int)
}

proof fn lemma_mod_step(p: int, k: int, len: int)
    requires
        0 <= p < len,
        0 <= k < len,
    ensures
        (p + 1 + k) % len == (if k == len - 1 { p } else { (p + k + 1) % len }),
        k < len - 1 ==> (p + 1 + k) % len != p,
        ((p + 1) % len + k) % len == (p + 1 + k) % len,
{
    if p + 1 + k < len {
        lemma_small_mod((p + 1 + k) as nat, len as nat);
    } else {
        lemma_fundamental_div_mod_converse(p + 1 + k, len, 1, p + 1 + k - len);
    }
    if p + 1 < len {
        lemma_small_mod((p + 1) as nat, len as nat);
    } else {
        lemma_fundamental_div_mod_converse(p + 1, len, 1, 0);
        lemma_small_mod(k as nat, len as nat);
        lemma_fundamental_div_mod_converse(p + 1 + k, len, 1, k);
    }
}

/// Writing a sample into the oldest slot and moving the position on one
/// slot drops the oldest sample and appends the new one.
proof fn lemma_ring_write(ring: Seq<u32>, p: int, s: u32)
    requires
        0 <= p < ring.len(),
    ensures
        ring_window(ring.update(p, s), (p + 1) % (ring.len() as int))
            =~= ring_window(ring, p).drop_first().push(s),
{
    let len = ring.len() as int;
    let r2 = ring.update(p, s);
    let w2 = ring_window(r2, (p + 1) % len);
    let w = ring_window(ring, p).drop_first().push(s);
    assert forall|k: int| 0 <= k < len implies w2[k] == w[k] by {
        lemma_mod_step(p, k, len);
        if k < len - 1 {
            lemma_mod_step(p, k + 1, len);
            assert((p + (k + 1)) % len == (p + 1 + k) % len);
        }
    }
}

/// The frame orchestrator.
pub struct FrameOrchestrator {
    /// Ring buffer of incoming samples (f32 bit patterns).
    ring_buffer: Vec<u32>,
    /// Write position in the ring buffer: the oldest slot.
    write_pos: usize,
    /// Total samples received since init or reset.
    total_samples: u64,
    /// Hop size of the last block's quality mode.
    hop_size: usize,
    /// Maximum frame size.
    max_frame_size: usize,
    sample_rate: u32,
    /// Tracks hop boundaries.
    frame_clock: FrameClock,
}

impl FrameOrchestrator {
    /// The write position lies inside the ring (or is 0 while the ring is
    /// empty), and the clock is well formed.
    pub closed spec fn wf(&self) -> bool {
        &&& self.ring_buffer@.len() == 0 || self.ring_buffer@.len() == RING_SIZE
        &&& self.ring_buffer@.len() == 0 ==> self.write_pos == 0
        &&& self.ring_buffer@.len() > 0 ==> self.write_pos < self.ring_buffer@.len()
        &&& self.frame_clock.wf()
    }

    /// The ring's contents, oldest sample first.
    pub closed spec fn window(&self) -> Seq<u32> {
        ring_window(self.ring_buffer@, self.write_pos as int)
    }

    /// The ring's current write position.
    pub closed spec fn spec_write_pos(&self) -> usize {
        self.write_pos
    }

    /// Samples received since init or reset.
    pub closed spec fn spec_total(&self) -> nat {
        self.total_samples as nat
    }

    /// The hop clock.
    pub closed spec fn clock(&self) -> FrameClock {
        self.frame_clock
    }

    /// Hop size of the last processed block's quality mode.
    pub closed spec fn spec_hop_size(&self) -> usize {
        self.hop_size
    }

    /// An orchestrator with no ring yet; `init` allocates it.
    pub fn new() -> (r: Self)
        ensures
            r.wf(),
            r.window() == Seq::<u32>::empty(),
            r.spec_write_pos() == 0,
            r.spec_total() == 0,
            r.clock().pending() == 0,
            r.clock().frames() == 0,
            r.clock().hop() == 256,
            r.spec_hop_size() == 256,
    {
        FrameOrchestrator {
            ring_buffer: Vec::new(),
            write_pos: 0,
            total_samples: 0,
            hop_size: 256,
            max_frame_size: 0,
            sample_rate: 48000,
            frame_clock: FrameClock::new(256),
        }
    }

    pub fn name(&self) -> (r: &'static str)
        ensures
            r@ == "M0:Orchestrator"@,
    {
        "M0:Orchestrator"
    }

    /// Allocate a silent ring of `RING_SIZE` samples and restart the write
    /// position and the clock (hop 256 until the first block sets the
    /// quality's hop). Samples received so far stay counted.
    pub fn init(&mut self, max_frame_size: usize, sample_rate: u32)
        ensures
            final(self).wf(),
            final(self).window() == Seq::new(RING_SIZE as nat, |k: int| 0u32),
            final(self).spec_write_pos() == 0,
            final(self).spec_total() == old(self).spec_total(),
            final(self).clock().pending() == 0,
            final(self).clock().frames() == 0,
            final(self).clock().hop() == 256,
            final(self).spec_hop_size() == old(self).spec_hop_size(),
    {
        self.max_frame_size = max_frame_size;
        self.sample_rate = sample_rate;
        let ring_size = AIR_FFT_SIZE * 2;
        self.ring_buffer = vec![0u32; ring_size];
        self.write_pos = 0;
        self.frame_clock = FrameClock::new(256);
        proof {
            assert(self.window() =~= Seq::new(RING_SIZE as nat, |k: int| 0u32));
        }
    }

    /// Current write position.
    pub fn write_position(&self) -> (r: usize)
        ensures
            r == self.spec_write_pos(),
    {
        self.write_pos
    }

    /// Total samples written since init/reset.
    pub fn total_samples_written(&self) -> (r: u64)
        ensures
            r == self.spec_total(),
    {
        self.total_samples
    }

    /// The hop clock.
    pub fn frame_clock(&self) -> (r: &FrameClock)
        ensures
            *r == self.clock(),
    {
        &self.frame_clock
    }

    /// Number of samples the ring holds (0 before init).
    pub fn ring_len(&self) -> (r: usize)
        ensures
            r == self.window().len(),
    {
        self.ring_buffer.len()
    }

    /// Write a block of samples into the ring and advance the hop clock,
    /// counting in the hop of the block's quality mode. Returns the hops that completed during this block and the analysis
    /// frame count afterwards, which later stages read.
    pub fn process(&mut self, samples: &[u32], quality: QualityMode) -> (r: (usize, u64))
        requires
            old(self).wf(),
            old(self).window().len() > 0 || samples@.len() == 0,
            old(self).spec_total() + samples@.len() <= u64::MAX,
            old(self).clock().pending() + samples@.len() <= usize::MAX,
            old(self).clock().frames() + (old(self).clock().pending() + samples@.len())
                / (spec_hop_size(quality) as nat) <= u64::MAX,
        ensures
            final(self).wf(),
            final(self).window() == last_n(
                old(self).window() + samples@,
                old(self).window().len() as int,
            ),
            final(self).spec_total() == old(self).spec_total() + samples@.len(),
            final(self).spec_hop_size() == spec_hop_size(quality),
            r.0 == (old(self).clock().pending() + samples@.len()) / (spec_hop_size(quality) as nat),
            (final(self).clock().pending(), final(self).clock().frames()) == spec_advance(
                old(self).clock().pending(),
                old(self).clock().frames(),
                spec_hop_size(quality) as nat,
                samples@.len(),
            ),
            final(self).clock().hop() == spec_hop_size(quality),
            r.1 == final(self).clock().frames(),
    {
        self.hop_size = quality.hop_size();
        let ring_len = self.ring_buffer.len();
        let ghost w0 = self.window();
        let mut i: usize = 0;
        while i < samples.len()
            invariant
                0 <= i <= samples@.len(),
                self.ring_buffer@.len() == ring_len,
                w0.len() == ring_len,
                ring_len > 0 || samples@.len() == 0,
                ring_len > 0 ==> self.write_pos < ring_len,
                ring_len == 0 ==> self.write_pos == 0,
                ring_len == 0 || ring_len == RING_SIZE,
                self.frame_clock == old(self).frame_clock,
                self.total_samples == old(self).total_samples,
                self.hop_size == spec_hop_size(quality),
                self.window() == (w0 + samples@.subrange(0, i as int)).subrange(
                    i as int,
                    i + ring_len,
                ),
            decreases samples@.len() - i,
        {
            let ghost before = self.window();
            let s = samples[i];
            let p = self.write_pos;
            proof {
                lemma_ring_write(self.ring_buffer@, p as int, s);
            }
            self.ring_buffer.set(p, s);
            self.write_pos = (p + 1) % ring_len;
            proof {
                lemma_mod_pos_bound((p + 1) as int, ring_len as int);
                let all = w0 + samples@.subrange(0, i + 1);
                assert(self.window() =~= before.drop_first().push(s));
                assert(self.window() =~= all.subrange(i + 1, i + 1 + ring_len)) by {
                    let prev = w0 + samples@.subrange(0, i as int);
                    assert forall|k: int| 0 <= k < ring_len implies self.window()[k]
                        == all[i + 1 + k] by {
                        if k < ring_len - 1 {
                            assert(self.window()[k] == before[k + 1]);
                            assert(before[k + 1] == prev[i + k + 1]);
                        } else {
                            assert(self.window()[k] == s);
                        }
                    }
                }
            }
            i = i + 1;
        }
        proof {
            assert(samples@.subrange(0, samples@.len() as int) =~= samples@);
        }
        self.total_samples = self.total_samples + samples.len() as u64;
        self.frame_clock.set_hop_size(self.hop_size);
        let hops = self.frame_clock.advance(samples.len());
        (hops, self.frame_clock.frame_count())
    }

    /// Read the last `len` samples into the front of `output`; returns the
    /// number copied: `len` limited by the ring size and the output length
    /// (0 while the ring is empty). The rest of `output` is untouched.
    pub fn read_last(&self, output: &mut [u32], len: usize) -> (n: usize)
        requires
            self.wf(),
        ensures
            n == (if self.window().len() == 0 || len == 0 {
                0
            } else {
                vstd::math::min(vstd::math::min(len as int, self.window().len() as int), old(output)@.len() as int)
            }),
            final(output)@.len() == old(output)@.len(),
            final(output)@.subrange(0, n as int) == last_n(self.window(), n as int),
            final(output)@.subrange(n as int, old(output)@.len() as int)
                == old(output)@.subrange(n as int, old(output)@.len() as int),
    {
        let ring_len = self.ring_buffer.len();
        if ring_len == 0 || len == 0 {
            return 0;
        }
        let mut actual_len = if len < ring_len { len } else { ring_len };
        if output.len() < actual_len {
            actual_len = output.len();
        }
        let start = if self.write_pos >= actual_len {
            self.write_pos - actual_len
        } else {
            ring_len - (actual_len - self.write_pos)
        };
        let ghost w = self.window();
        let mut i: usize = 0;
        while i < actual_len
            invariant
                0 <= i <= actual_len <= ring_len,
                actual_len <= output@.len(),
                output@.len() == old(output)@.len(),
                ring_len == self.ring_buffer@.len(),
                start < ring_len,
                self.write_pos >= actual_len ==> start == self.write_pos - actual_len,
                self.write_pos < actual_len ==> start == ring_len - (actual_len - self.write_pos),
                w == self.window(),
                self.wf(),
                ring_len == RING_SIZE,
                forall|j: int| 0 <= j < i ==> output@[j] == w[ring_len - actual_len + j],
                forall|j: int| actual_len <= j < output@.len() ==> output@[j] == old(output)@[j],
            decreases actual_len - i,
        {
            let idx = (start + i) % ring_len;
            proof {
                let L = ring_len as int;
                let p = self.write_pos as int;
                let k = L - actual_len + i;
                assert(0 <= k < L);
                // (p + k) % L == (start + i) % L
                if self.write_pos >= actual_len {
                    lemma_small_mod((start + i) as nat, L as nat);
                    lemma_fundamental_div_mod_converse(p + k, L, 1, start + i);
                } else {
                    assert(p + k == start + i);
                }
                assert(w[k] == self.ring_buffer@[idx as int]);
            }
            output[i] = self.ring_buffer[idx];
            i = i + 1;
        }
        proof {
            assert(output@.subrange(0, actual_len as int) =~= last_n(w, actual_len as int));
            assert(output@.subrange(actual_len as int, output@.len() as int)
                =~= old(output)@.subrange(actual_len as int, output@.len() as int));
        }
        actual_len
    }

    /// Silence the ring and restart counting; the hop size is kept.
    pub fn reset(&mut self)
        requires
            old(self).wf(),
        ensures
            final(self).wf(),
            final(self).window() == Seq::new(old(self).window().len(), |k: int| 0u32),
            final(self).spec_write_pos() == 0,
            final(self).spec_total() == 0,
            final(self).clock().pending() == 0,
            final(self).clock().frames() == 0,
            final(self).clock().hop() == old(self).clock().hop(),
            final(self).spec_hop_size() == old(self).spec_hop_size(),
    {
        let n = self.ring_buffer.len();
        let mut i: usize = 0;
        while i < n
            invariant
                0 <= i <= n,
                self.ring_buffer@.len() == n,
                forall|j: int| 0 <= j < i ==> self.ring_buffer@[j] == 0u32,
                self.frame_clock == old(self).frame_clock,
                self.hop_size == old(self).hop_size,
                self.write_pos == old(self).write_pos,
                n == 0 || n == RING_SIZE,
            decreases n - i,
        {
            self.ring_buffer.set(i, 0);
            i = i + 1;
        }
        self.write_pos = 0;
        self.total_samples = 0;
        self.frame_clock.reset();
        proof {
            assert forall|k: int| 0 <= k < n implies #[trigger] self.window()[k] == 0u32 by {
                lemma_mod_pos_bound(k, n as int);
            }
            assert(self.window() =~= Seq::new(n as nat, |k: int| 0u32));
        }
    }
}

/// What a read gives back of a write: after a block is written to a ring
/// of any size, reading the last `k` samples (for `k` at most the ring size
/// and at most the block) gives the last `k` samples of that block; for
/// `k` beyond the block, the older samples come from before it, in order.
pub proof fn lemma_read_back_after_write(window: Seq<u32>, block: Seq<u32>, k: int)
    requires
        0 <= k <= window.len(),
    ensures
        k <= block.len() ==> last_n(last_n(window + block, window.len() as int), k) == last_n(block, k),
        k > block.len() ==> last_n(last_n(window + block, window.len() as int), k)
            == last_n(window, k - block.len()) + block,
{
    let all = window + block;
    let kept = last_n(all, window.len() as int);
    if k <= block.len() {
        assert(last_n(kept, k) =~= last_n(block, k));
    } else {
        assert(last_n(kept, k) =~= last_n(window, k - block.len()) + block);
    }
}

} // verus!
