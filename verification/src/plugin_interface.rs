//! The plain-data side of the AudioServerPlugIn driver interface: property
//! addresses, status codes, and the decisions the driver makes when clients
//! start and stop IO.
use vstd::prelude::*;
use crate::constants::AUDIO_SERVER_PLUGIN_TYPE_UUID;

verus! {

/// OSStatus: no error.
pub const NO_ERR: i32 = 0;

/// kAudio_UnimplementedError.
pub const ERR_UNSUPPORTED: i32 = -4;

/// '!obj': kAudioHardwareBadObjectError.
pub const ERR_BAD_OBJECT: i32 = 0x21_6F626A;

/// '!pro': kAudioHardwareUnknownPropertyError.
pub const ERR_BAD_PROPERTY: i32 = 0x21_70726F;

/// AudioObjectPropertyAddress: identifies a property on an audio object.
#[derive(Debug, Clone, Copy)]
pub struct AudioObjectPropertyAddress {
    pub selector: u32,
    pub scope: u32,
    pub element: u32,
}

/// Whether the factory serves a requested plug-in type: only the
/// AudioServerPlugIn type is served.
pub fn factory_accepts(requested_type_uuid: [u8; 16]) -> (r: bool)
    ensures
        r == (requested_type_uuid@ == AUDIO_SERVER_PLUGIN_TYPE_UUID@),
{
    let expected = AUDIO_SERVER_PLUGIN_TYPE_UUID;
    let mut i: usize = 0;
    while i < 16
        invariant
            0 <= i <= 16,
            expected@ == AUDIO_SERVER_PLUGIN_TYPE_UUID@,
            forall|j: int| 0 <= j < i ==> requested_type_uuid@[j] == expected@[j],
        decreases 16 - i,
    {
        if requested_type_uuid[i] != expected[i] {
            assert(requested_type_uuid@[i as int] != AUDIO_SERVER_PLUGIN_TYPE_UUID@[i as int]);
            return false;
        }
        i = i + 1;
    }
    assert(requested_type_uuid@ =~= AUDIO_SERVER_PLUGIN_TYPE_UUID@);
    true
}

/// IO operation: process the output mix.
pub const IO_OPERATION_PROCESS_OUTPUT: u32 = 2;

/// The answer to WillDoIOOperation, as (will_do, is_input): the driver only
/// processes output, and never as an input operation.
pub fn will_do_io_operation(operation_id: u32) -> (r: (u8, u8))
    ensures
        r == (if operation_id == IO_OPERATION_PROCESS_OUTPUT { 1u8 } else { 0u8 }, 0u8),
{
    let will_do: u8 = if operation_id == IO_OPERATION_PROCESS_OUTPUT { 1 } else { 0 };
    (will_do, 0)
}

/// The interleaved sample count a DoIOOperation call processes in place:
/// only output processing on a non-empty stereo buffer is worked on
/// (`None`: return at once with no error).
pub fn io_operation_samples(operation_id: u32, io_buffer_frame_size: u32) -> (r: Option<u64>)
    ensures
        r == (if operation_id == IO_OPERATION_PROCESS_OUTPUT && io_buffer_frame_size != 0 {
            Some((io_buffer_frame_size * 2) as u64)
        } else {
            None::<u64>
        }),
{
    if operation_id != IO_OPERATION_PROCESS_OUTPUT {
        return None;
    }
    let sample_count: u64 = (io_buffer_frame_size as u64) * 2;
    if sample_count == 0 {
        return None;
    }
    Some(sample_count)
}

/// AddRef on the driver's reference count: the count after it.
pub fn driver_add_ref(ref_count: &mut u32) -> (r: u32)
    requires
        *old(ref_count) < u32::MAX,
    ensures
        *final(ref_count) == *old(ref_count) + 1,
        r == *final(ref_count),
{
    *ref_count = *ref_count + 1;
    *ref_count
}

/// Release on the driver's reference count: the count left, and whether
/// this was the last reference (the instance is then deallocated).
pub fn driver_release(ref_count: &mut u32) -> (r: (u32, bool))
    requires
        *old(ref_count) > 0,
    ensures
        *final(ref_count) == *old(ref_count) - 1,
        r == (*final(ref_count), *old(ref_count) == 1),
{
    let prev = *ref_count;
    *ref_count = prev - 1;
    if prev == 1 {
        return (0, true);
    }
    (prev - 1, false)
}

/// GetZeroTimeStamp: the clock is a plain counter. Each call advances the
/// seed and reports host time 0 with the new seed (the sample time is 0.0).
pub fn zero_time_stamp(counter: &mut u64) -> (r: (u64, u64))
    requires
        *old(counter) < u64::MAX,
    ensures
        *final(counter) == *old(counter) + 1,
        r == (0u64, *final(counter)),
{
    *counter = *counter + 1;
    (0, *counter)
}

/// The IO client bookkeeping of the driver: how many clients have started
/// IO and whether the IO engine runs.
#[derive(Debug, Clone, Copy, PartialEq, Eq, Structural)]
pub struct IoClients {
    pub io_client_count: u32,
    pub io_running: bool,
}

/// The bookkeeping after a client starts IO, and whether the engine must be
/// started.
pub open spec fn spec_start_io(c: IoClients) -> (IoClients, bool) {
    (IoClients { io_client_count: (c.io_client_count + 1) as u32, io_running: true }, !c.io_running)
}

/// The bookkeeping after a client stops IO, and whether the engine must be
/// stopped: the last client left while it was running.
pub open spec fn spec_stop_io(c: IoClients) -> (IoClients, bool) {
    let count = if c.io_client_count > 0 { (c.io_client_count - 1) as u32 } else { 0u32 };
    let stop = count == 0 && c.io_running;
    (IoClients { io_client_count: count, io_running: c.io_running && !stop }, stop)
}

impl IoClients {
    pub fn new() -> (r: Self)
        ensures
            r == (IoClients { io_client_count: 0, io_running: false }),
    {
        IoClients { io_client_count: 0, io_running: false }
    }

    /// A client starts IO. Returns whether the IO engine must be started now
    /// (it was not running); the engine then runs.
    pub fn start_io(&mut self) -> (start_engine: bool)
        requires
            old(self).io_client_count < u32::MAX,
        ensures
            (*final(self), start_engine) == spec_start_io(*old(self)),
    {
        self.io_client_count = self.io_client_count + 1;
        if !self.io_running {
            self.io_running = true;
            true
        } else {
            false
        }
    }

    /// A client stops IO (a stop with no clients counts nothing). Returns
    /// whether the IO engine must be stopped now.
    pub fn stop_io(&mut self) -> (stop_engine: bool)
        ensures
            (*final(self), stop_engine) == spec_stop_io(*old(self)),
    {
        if self.io_client_count > 0 {
            self.io_client_count = self.io_client_count - 1;
        }
        if self.io_client_count == 0 && self.io_running {
            self.io_running = false;
            true
        } else {
            false
        }
    }
}

/// A client starting and then stopping IO leaves the client count as it
/// was; the engine keeps running afterwards exactly when other clients
/// remain, and it is stopped by that stop exactly when none remain.
pub proof fn lemma_start_stop_balance(c: IoClients)
    requires
        c.io_client_count < u32::MAX,
    ensures
        ({
            let (started, _) = spec_start_io(c);
            let (stopped, stop_engine) = spec_stop_io(started);
            &&& stopped.io_client_count == c.io_client_count
            &&& stopped.io_running == (c.io_client_count != 0)
            &&& stop_engine == (c.io_client_count == 0)
        }),
{
}

/// The engine never runs without a client once bookkeeping starts from
/// nothing: a start makes the count positive, and a stop that brings the
/// count to zero stops the engine.
pub proof fn lemma_running_implies_clients(c: IoClients)
    requires
        c.io_running ==> c.io_client_count > 0,
        c.io_client_count < u32::MAX,
    ensures
        spec_start_io(c).0.io_running ==> spec_start_io(c).0.io_client_count > 0,
        spec_stop_io(c).0.io_running ==> spec_stop_io(c).0.io_client_count > 0,
{
}

} // verus!
