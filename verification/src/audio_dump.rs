//! Before/after capture of the audio stream for A/B comparison.
//!
//! The recorder is a small state machine: while idle it asks, once every
//! `CHECK_INTERVAL` blocks, whether the host should look for the trigger
//! file; once triggered it copies the pre- and post-processing samples
//! (as IEEE-754 bit patterns) until `MAX_SAMPLES` are held, then hands both
//! buffers out to be written as WAV files and waits until that is done.
use vstd::prelude::*;
use vstd::bytes::{spec_u16_to_le_bytes, spec_u32_to_le_bytes, u16_to_le_bytes, u32_to_le_bytes};
use crate::properties::u32_list_bytes;

verus! {

/// Samples held per capture: 30 seconds of 48 kHz stereo.
pub const MAX_SAMPLES: usize = 48000 * 2 * 30;

/// While idle, the trigger file is looked for once every this many blocks.
pub const CHECK_INTERVAL: u32 = 480;

/// Where the recorder stands.
#[derive(Debug, Clone, Copy, PartialEq, Eq, Structural)]
pub enum DumpState {
    Idle,
    Recording,
    Writing,
}

/// A completed capture, ready to be written out.
pub struct DumpTake {
    /// Pre-processing samples, interleaved, as f32 bit patterns.
    pub before: Vec<u32>,
    /// Post-processing samples, interleaved, as f32 bit patterns.
    pub after: Vec<u32>,
    pub sample_rate: u32,
    pub channels: u16,
}

/// What the host does after handing a block to the recorder.
pub enum RecordAction {
    /// Nothing to do.
    Nothing,
    /// Look for the trigger file; if it is there, call `trigger_found`.
    CheckTrigger,
    /// Write both buffers as WAV files, then call `finish_writing`.
    WriteFiles(DumpTake),
}

/// The recorder.
pub struct AudioDump {
    state: DumpState,
    frame_counter: u32,
    sample_rate: u32,
    channels: u32,
    before: Vec<u32>,
    after: Vec<u32>,
}

impl AudioDump {
    pub closed spec fn spec_state(&self) -> DumpState {
        self.state
    }

    pub closed spec fn spec_counter(&self) -> u32 {
        self.frame_counter
    }

    pub closed spec fn spec_sample_rate(&self) -> u32 {
        self.sample_rate
    }

    pub closed spec fn spec_channels(&self) -> u32 {
        self.channels
    }

    /// Pre-processing samples captured so far.
    pub closed spec fn spec_before(&self) -> Seq<u32> {
        self.before@
    }

    /// Post-processing samples captured so far.
    pub closed spec fn spec_after(&self) -> Seq<u32> {
        self.after@
    }

    /// Both buffers are equally long and never over the limit; outside
    /// recording they are empty.
    pub closed spec fn wf(&self) -> bool {
        &&& self.before@.len() == self.after@.len()
        &&& self.before@.len() <= MAX_SAMPLES
        &&& self.state != DumpState::Recording ==> self.before@.len() == 0
        &&& self.state == DumpState::Recording ==> self.before@.len() < MAX_SAMPLES
    }

    /// An idle recorder for 48 kHz stereo.
    pub fn new() -> (r: Self)
        ensures
            r.wf(),
            r.spec_state() == DumpState::Idle,
            r.spec_counter() == 0,
            r.spec_sample_rate() == 48000,
            r.spec_channels() == 2,
            r.spec_before().len() == 0,
            r.spec_after().len() == 0,
    {
        AudioDump {
            state: DumpState::Idle,
            frame_counter: 0,
            sample_rate: 48000,
            channels: 2,
            before: Vec::new(),
            after: Vec::new(),
        }
    }

    pub fn state(&self) -> (r: DumpState)
        ensures
            r == self.spec_state(),
    {
        self.state
    }

    /// Samples captured so far per buffer.
    pub fn captured(&self) -> (r: usize)
        ensures
            r == self.spec_before().len(),
    {
        self.before.len()
    }

    pub fn sample_rate(&self) -> (r: u32)
        ensures
            r == self.spec_sample_rate(),
    {
        self.sample_rate
    }

    pub fn channels(&self) -> (r: u32)
        ensures
            r == self.spec_channels(),
    {
        self.channels
    }

    /// Hands one processed block to the recorder and says what the host
    /// must do next.
    ///
    /// Idle: counts the block (the counter wraps) and asks for a trigger
    /// check on every `CHECK_INTERVAL`-th block, the first one included.
    /// Recording: appends as many samples of both blocks as both hold and
    /// the limit allows; on reaching the limit the capture is handed out
    /// and the recorder waits for the files to be written. Writing: nothing.
    pub fn record(&mut self, input: &[u32], output: &[u32]) -> (action: RecordAction)
        requires
            old(self).wf(),
        ensures
            final(self).wf(),
            final(self).spec_sample_rate() == old(self).spec_sample_rate(),
            final(self).spec_channels() == old(self).spec_channels(),
            old(self).spec_state() == DumpState::Idle ==> {
                &&& final(self).spec_state() == DumpState::Idle
                &&& final(self).spec_counter() == (old(self).spec_counter() as int + 1) % 0x1_0000_0000
                &&& final(self).spec_before().len() == 0
                &&& final(self).spec_after().len() == 0
                &&& (old(self).spec_counter() % CHECK_INTERVAL == 0 ==> action is CheckTrigger)
                &&& (old(self).spec_counter() % CHECK_INTERVAL != 0 ==> action is Nothing)
            },
            old(self).spec_state() == DumpState::Writing ==> {
                &&& *final(self) == *old(self)
                &&& action is Nothing
            },
            old(self).spec_state() == DumpState::Recording ==> {
                let n = min3(input@.len() as int, output@.len() as int, MAX_SAMPLES - old(self).spec_before().len());
                let before = old(self).spec_before() + input@.subrange(0, n);
                let after = old(self).spec_after() + output@.subrange(0, n);
                &&& final(self).spec_counter() == old(self).spec_counter()
                &&& if before.len() >= MAX_SAMPLES {
                    &&& final(self).spec_state() == DumpState::Writing
                    &&& final(self).spec_before().len() == 0
                    &&& final(self).spec_after().len() == 0
                    &&& action matches RecordAction::WriteFiles(take) && {
                        &&& take.before@ == before
                        &&& take.after@ == after
                        &&& take.sample_rate == old(self).spec_sample_rate()
                        &&& take.channels == old(self).spec_channels() as u16
                    }
                } else {
                    &&& final(self).spec_state() == DumpState::Recording
                    &&& final(self).spec_before() == before
                    &&& final(self).spec_after() == after
                    &&& action is Nothing
                }
            },
    {
        match self.state {
            DumpState::Idle => {
                let count = self.frame_counter;
                self.frame_counter = count.wrapping_add(1);
                if count % CHECK_INTERVAL == 0 {
                    RecordAction::CheckTrigger
                } else {
                    RecordAction::Nothing
                }
            },
            DumpState::Recording => {
                let remaining = MAX_SAMPLES - self.before.len();
                let mut copy_len = input.len();
                if output.len() < copy_len {
                    copy_len = output.len();
                }
                if remaining < copy_len {
                    copy_len = remaining;
                }
                let ghost old_before = self.before@;
                let ghost old_after = self.after@;
                let mut i: usize = 0;
                while i < copy_len
                    invariant
                        self.state == DumpState::Recording,
                        self.sample_rate == old(self).sample_rate,
                        self.channels == old(self).channels,
                        self.frame_counter == old(self).frame_counter,
                        copy_len <= input.len(),
                        copy_len <= output.len(),
                        old_before.len() + copy_len <= MAX_SAMPLES,
                        0 <= i <= copy_len,
                        self.before@ == old_before + input@.subrange(0, i as int),
                        self.after@ == old_after + output@.subrange(0, i as int),
                    decreases copy_len - i,
                {
                    self.before.push(input[i]);
                    self.after.push(output[i]);
                    proof {
                        assert(input@.subrange(0, i as int + 1) =~= input@.subrange(0, i as int).push(input@[i as int]));
                        assert(output@.subrange(0, i as int + 1) =~= output@.subrange(0, i as int).push(output@[i as int]));
                    }
                    i = i + 1;
                }
                if self.before.len() >= MAX_SAMPLES {
                    let mut before: Vec<u32> = Vec::new();
                    let mut after: Vec<u32> = Vec::new();
                    std::mem::swap(&mut before, &mut self.before);
                    std::mem::swap(&mut after, &mut self.after);
                    self.state = DumpState::Writing;
                    RecordAction::WriteFiles(DumpTake {
                        before,
                        after,
                        sample_rate: self.sample_rate,
                        channels: self.channels as u16,
                    })
                } else {
                    RecordAction::Nothing
                }
            },
            DumpState::Writing => RecordAction::Nothing,
        }
    }

    /// The trigger file was found: an idle recorder starts capturing with
    /// empty buffers. In any other state nothing changes.
    pub fn trigger_found(&mut self)
        requires
            old(self).wf(),
        ensures
            final(self).wf(),
            old(self).spec_state() == DumpState::Idle ==> {
                &&& final(self).spec_state() == DumpState::Recording
                &&& final(self).spec_before().len() == 0
                &&& final(self).spec_after().len() == 0
                &&& final(self).spec_counter() == old(self).spec_counter()
                &&& final(self).spec_sample_rate() == old(self).spec_sample_rate()
                &&& final(self).spec_channels() == old(self).spec_channels()
            },
            old(self).spec_state() != DumpState::Idle ==> *final(self) == *old(self),
    {
        if self.state == DumpState::Idle {
            self.before = Vec::new();
            self.after = Vec::new();
            self.state = DumpState::Recording;
        }
    }

    /// Both files are written: a recorder that was writing becomes idle.
    /// In any other state nothing changes.
    pub fn finish_writing(&mut self)
        requires
            old(self).wf(),
        ensures
            final(self).wf(),
            old(self).spec_state() == DumpState::Writing ==> {
                &&& final(self).spec_state() == DumpState::Idle
                &&& final(self).spec_counter() == old(self).spec_counter()
                &&& final(self).spec_sample_rate() == old(self).spec_sample_rate()
                &&& final(self).spec_channels() == old(self).spec_channels()
                &&& final(self).spec_before().len() == 0
                &&& final(self).spec_after().len() == 0
            },
            old(self).spec_state() != DumpState::Writing ==> *final(self) == *old(self),
    {
        if self.state == DumpState::Writing {
            self.state = DumpState::Idle;
        }
    }
}

/// The smallest of three integers.
pub open spec fn min3(a: int, b: int, c: int) -> int {
    let ab = if a < b { a } else { b };
    if ab < c { ab } else { c }
}

/// A capture never overshoots: when a block completes it, both buffers
/// hold exactly `MAX_SAMPLES` samples; otherwise they stay below it.
pub proof fn lemma_capture_is_exactly_full(held: int, input_len: int, output_len: int)
    requires
        0 <= held < MAX_SAMPLES,
        0 <= input_len,
        0 <= output_len,
    ensures
        ({
            let total = held + min3(input_len, output_len, MAX_SAMPLES - held);
            &&& total <= MAX_SAMPLES
            &&& total >= MAX_SAMPLES ==> total == MAX_SAMPLES
            &&& (input_len >= MAX_SAMPLES - held && output_len >= MAX_SAMPLES - held) ==> total == MAX_SAMPLES
        }),
{
}

/// Sets the sample rate and channel count the next capture is labelled
/// with; nothing else changes.
pub fn init(dump: &mut AudioDump, sample_rate: u32, channels: u32)
    requires
        old(dump).wf(),
    ensures
        final(dump).wf(),
        final(dump).spec_sample_rate() == sample_rate,
        final(dump).spec_channels() == channels,
        final(dump).spec_state() == old(dump).spec_state(),
        final(dump).spec_counter() == old(dump).spec_counter(),
        final(dump).spec_before() == old(dump).spec_before(),
        final(dump).spec_after() == old(dump).spec_after(),
{
    dump.sample_rate = sample_rate;
    dump.channels = channels;
}

// ─── WAV encoding ───

/// The 44-byte header of a 32-bit IEEE-float WAV file holding `num_samples`
/// interleaved samples.
pub open spec fn wav_header(sample_rate: u32, channels: u16, num_samples: u32) -> Seq<u8> {
    let data_size = (4 * num_samples) as u32;
    seq![0x52u8, 0x49u8, 0x46u8, 0x46u8]  // "RIFF"
        + spec_u32_to_le_bytes((36 + data_size) as u32)
        + seq![0x57u8, 0x41u8, 0x56u8, 0x45u8]  // "WAVE"
        + seq![0x66u8, 0x6du8, 0x74u8, 0x20u8]  // "fmt "
        + spec_u32_to_le_bytes(16)
        + spec_u16_to_le_bytes(3)
        + spec_u16_to_le_bytes(channels)
        + spec_u32_to_le_bytes(sample_rate)
        + spec_u32_to_le_bytes((sample_rate * channels * 4) as u32)
        + spec_u16_to_le_bytes((channels * 4) as u16)
        + spec_u16_to_le_bytes(32)
        + seq![0x64u8, 0x61u8, 0x74u8, 0x61u8]  // "data"
        + spec_u32_to_le_bytes(data_size)
}

/// Whether a file of that shape has a header whose fields all fit.
pub open spec fn wav_fits(sample_rate: u32, channels: u16, num_samples: int) -> bool {
    &&& 4 * num_samples + 36 <= u32::MAX
    &&& sample_rate * channels * 4 <= u32::MAX
    &&& channels * 4 <= u16::MAX
}

/// Whether a file of `num_samples` samples at that rate and channel count
/// has a header whose fields all fit.
pub fn wav_header_fits(sample_rate: u32, channels: u16, num_samples: usize) -> (r: bool)
    ensures
        r == wav_fits(sample_rate, channels, num_samples as int),
{
    let limit: u64 = 0xffff_ffff;
    if num_samples as u64 > (limit - 36) / 4 {
        return false;
    }
    let sr: u64 = sample_rate as u64;
    let ch: u64 = channels as u64;
    assert(sr * ch <= 0xffff_ffffu64 * 0xffffu64) by (nonlinear_arith)
        requires
            sr <= 0xffff_ffffu64,
            ch <= 0xffffu64,
    ;
    let byte_rate: u64 = sr * ch * 4;
    byte_rate <= limit && (channels as u32) * 4 <= 0xffff
}

fn extend(out: &mut Vec<u8>, bytes: Vec<u8>)
    ensures
        final(out)@ == old(out)@ + bytes@,
{
    let mut b = bytes;
    out.append(&mut b);
}

/// The whole WAV file: header, then each sample's four little-endian bytes.
pub fn wav_bytes(samples: &[u32], sample_rate: u32, channels: u16) -> (r: Vec<u8>)
    requires
        wav_fits(sample_rate, channels, samples@.len() as int),
    ensures
        r@ == wav_header(sample_rate, channels, samples@.len() as u32) + u32_list_bytes(samples@),
{
    let num_samples = samples.len() as u32;
    let data_size: u32 = num_samples * 4;
    let byte_rate: u32 = sample_rate * (channels as u32) * 4;
    let block_align: u16 = channels * 4;
    let mut out: Vec<u8> = vec![0x52u8, 0x49u8, 0x46u8, 0x46u8];
    extend(&mut out, u32_to_le_bytes(36 + data_size));
    extend(&mut out, vec![0x57u8, 0x41u8, 0x56u8, 0x45u8]);
    extend(&mut out, vec![0x66u8, 0x6du8, 0x74u8, 0x20u8]);
    extend(&mut out, u32_to_le_bytes(16));
    extend(&mut out, u16_to_le_bytes(3));
    extend(&mut out, u16_to_le_bytes(channels));
    extend(&mut out, u32_to_le_bytes(sample_rate));
    extend(&mut out, u32_to_le_bytes(byte_rate));
    extend(&mut out, u16_to_le_bytes(block_align));
    extend(&mut out, u16_to_le_bytes(32));
    extend(&mut out, vec![0x64u8, 0x61u8, 0x74u8, 0x61u8]);
    extend(&mut out, u32_to_le_bytes(data_size));
    let ghost header = out@;
    assert(header =~= wav_header(sample_rate, channels, num_samples));
    let mut i: usize = 0;
    while i < samples.len()
        invariant
            0 <= i <= samples@.len(),
            out@ == header + u32_list_bytes(samples@.subrange(0, i as int)),
        decreases samples.len() - i,
    {
        extend(&mut out, u32_to_le_bytes(samples[i]));
        proof {
            let s = samples@.subrange(0, i as int + 1);
            assert(s.drop_last() =~= samples@.subrange(0, i as int));
        }
        i = i + 1;
    }
    assert(samples@.subrange(0, samples@.len() as int) =~= samples@);
    out
}

} // verus!
