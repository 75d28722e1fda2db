//! The COM-facing state of the Windows audio processing object: format
//! negotiation answers, the lock/unlock protocol and how each real-time
//! `APOProcess` call treats its connection buffers.
use vstd::prelude::*;
use crate::format_negotiate::{is_format_supported, spec_format_supported};
use crate::guid::{Guid, same_guid, guid_eq, iid_iunknown, clsid_phaselith_apo};

verus! {

/// Buffer flag: the buffer holds no valid data.
pub const BUFFER_INVALID: u32 = 0;
/// Buffer flag: the buffer holds valid data.
pub const BUFFER_VALID: u32 = 1;
/// Buffer flag: the buffer is silent.
pub const BUFFER_SILENT: u32 = 2;

/// Errors the object reports to the audio engine.
#[derive(Debug, Clone, Copy, PartialEq, Eq, Structural)]
pub enum ApoError {
    /// The object is locked for processing.
    AlreadyInitialized,
    /// The requested format is not supported.
    FormatNotSupported,
}

/// The connection descriptor handed to `LockForProcess`: its maximum frame
/// count, and the stream format when the media type could be read.
#[derive(Debug, Clone, Copy)]
pub struct ConnectionDescriptor {
    pub max_frame_count: u32,
    /// Sample rate and channel count.
    pub format: Option<(u32, u16)>,
}

/// What one `APOProcess` call does with its buffers.
#[derive(Debug, Clone, Copy, PartialEq, Eq, Structural)]
pub enum ProcessPlan {
    /// Mark the output with `flags` and zero valid frames; no processing.
    Mark { flags: u32 },
    /// Leave the output untouched (no channels).
    Skip,
    /// Process `sample_count` interleaved samples (`frames` frames), then
    /// mark the output valid with `frames` frames.
    Run { frames: u32, sample_count: u64 },
}

/// The object's COM-level state.
#[derive(Debug, Clone, Copy, PartialEq, Eq, Structural)]
pub struct ApoComState {
    pub sample_rate: u32,
    pub channels: u16,
    pub frame_size: usize,
    pub initialized: bool,
    pub locked: bool,
    pub process_call_count: u64,
}

/// The plan of a process call with the input's buffer flags and valid frame
/// count.
pub open spec fn spec_process_plan(channels: u16, input_flags: u32, valid_frames: u32) -> ProcessPlan {
    if input_flags == BUFFER_INVALID {
        ProcessPlan::Mark { flags: BUFFER_INVALID }
    } else if valid_frames == 0 {
        ProcessPlan::Mark { flags: BUFFER_SILENT }
    } else if channels == 0 {
        ProcessPlan::Skip
    } else {
        ProcessPlan::Run { frames: valid_frames, sample_count: (valid_frames * channels) as u64 }
    }
}

/// The state after `LockForProcess` with a descriptor, and its result.
pub open spec fn spec_lock(s: ApoComState, descriptor: Option<ConnectionDescriptor>) -> (ApoComState, Result<(u32, u16, usize), ApoError>) {
    if s.locked {
        (s, Err(ApoError::AlreadyInitialized))
    } else {
        let (sample_rate, channels) = match descriptor {
            Some(d) => match d.format {
                Some(f) => f,
                None => (s.sample_rate, s.channels),
            },
            None => (s.sample_rate, s.channels),
        };
        let frame_size = match descriptor {
            Some(d) => d.max_frame_count as usize,
            None => s.frame_size,
        };
        (ApoComState { sample_rate, channels, frame_size, locked: true, ..s }, Ok((sample_rate, channels, frame_size)))
    }
}

impl ApoComState {
    /// A fresh object: 48 kHz stereo, 480-frame blocks, not initialized and
    /// not locked.
    pub fn new() -> (r: Self)
        ensures
            r == (ApoComState {
                sample_rate: 48000,
                channels: 2,
                frame_size: 480,
                initialized: false,
                locked: false,
                process_call_count: 0,
            }),
    {
        ApoComState {
            sample_rate: 48000,
            channels: 2,
            frame_size: 480,
            initialized: false,
            locked: false,
            process_call_count: 0,
        }
    }

    /// `Reset` is refused while locked for processing.
    pub fn reset(&self) -> (r: Result<(), ApoError>)
        ensures
            r == (if self.locked { Err(ApoError::AlreadyInitialized) } else { Ok(()) }),
    {
        if self.locked {
            return Err(ApoError::AlreadyInitialized);
        }
        Ok(())
    }

    /// `Initialize`: marks the object initialized and returns the format
    /// the processing state is initialized with.
    pub fn initialize(&mut self) -> (r: (u32, u16))
        ensures
            r == (old(self).sample_rate, old(self).channels),
            *final(self) == (ApoComState { initialized: true, ..*old(self) }),
    {
        self.initialized = true;
        (self.sample_rate, self.channels)
    }

    /// The channel count reported to the engine.
    pub fn input_channel_count(&self) -> (r: u32)
        ensures
            r == self.channels as u32,
    {
        self.channels as u32
    }

    /// `LockForProcess`: refused when already locked; otherwise takes the
    /// frame count (and the format, when readable) from the descriptor,
    /// locks, and returns the format and frame size to build the engines
    /// for.
    pub fn lock_for_process(&mut self, descriptor: Option<ConnectionDescriptor>) -> (r: Result<(u32, u16, usize), ApoError>)
        ensures
            (*final(self), r) == spec_lock(*old(self), descriptor),
    {
        if self.locked {
            return Err(ApoError::AlreadyInitialized);
        }
        match descriptor {
            Some(d) => {
                match d.format {
                    Some((sr, ch)) => {
                        self.sample_rate = sr;
                        self.channels = ch;
                    },
                    None => {},
                }
                self.frame_size = d.max_frame_count as usize;
            },
            None => {},
        }
        self.locked = true;
        Ok((self.sample_rate, self.channels, self.frame_size))
    }

    /// `UnlockForProcess`.
    pub fn unlock_for_process(&mut self)
        ensures
            *final(self) == (ApoComState { locked: false, ..*old(self) }),
    {
        self.locked = false;
    }

    /// One `APOProcess` call: counts the call and decides how the buffers
    /// are handled.
    pub fn apo_process(&mut self, input_flags: u32, valid_frames: u32) -> (plan: ProcessPlan)
        requires
            old(self).process_call_count < u64::MAX,
        ensures
            plan == spec_process_plan(old(self).channels, input_flags, valid_frames),
            *final(self) == (ApoComState {
                process_call_count: (old(self).process_call_count + 1) as u64,
                ..*old(self)
            }),
    {
        self.process_call_count = self.process_call_count + 1;
        if input_flags == BUFFER_INVALID {
            return ProcessPlan::Mark { flags: BUFFER_INVALID };
        }
        if valid_frames == 0 {
            return ProcessPlan::Mark { flags: BUFFER_SILENT };
        }
        if self.channels == 0 {
            return ProcessPlan::Skip;
        }
        assert((valid_frames as u64) * (self.channels as u64) <= 0xffff_ffffu64 * 0xffffu64) by (nonlinear_arith);
        let sample_count: u64 = (valid_frames as u64) * (self.channels as u64);
        ProcessPlan::Run { frames: valid_frames, sample_count }
    }
}

/// Errors of the class factory.
#[derive(Debug, Clone, Copy, PartialEq, Eq, Structural)]
pub enum FactoryError {
    /// Aggregation was asked for an interface other than IUnknown.
    NoAggregation,
    /// The requested class is not this object's class.
    ClassNotAvailable,
}

/// How `CreateInstance` builds the object.
#[derive(Debug, Clone, Copy, PartialEq, Eq, Structural)]
pub enum InstanceKind {
    /// Inside an outer object, through a non-delegating IUnknown.
    Aggregated,
    /// On its own, queried for the requested interface.
    Standalone,
}

/// `CreateInstance`: with an outer object only IUnknown may be asked for.
pub fn create_instance_kind(aggregating: bool, riid: &Guid) -> (r: Result<InstanceKind, FactoryError>)
    ensures
        r == (if !aggregating {
            Ok(InstanceKind::Standalone)
        } else if same_guid(*riid, spec_iid_iunknown()) {
            Ok(InstanceKind::Aggregated)
        } else {
            Err(FactoryError::NoAggregation)
        }),
{
    if !aggregating {
        return Ok(InstanceKind::Standalone);
    }
    let unknown = iid_iunknown();
    assert(spec_iid_iunknown().data4@ =~= unknown.data4@);
    if guid_eq(riid, &unknown) {
        Ok(InstanceKind::Aggregated)
    } else {
        Err(FactoryError::NoAggregation)
    }
}

/// `DllGetClassObject`: a factory is handed out only for this object's class.
pub fn get_class_object(rclsid: &Guid) -> (r: Result<(), FactoryError>)
    ensures
        r == (if same_guid(*rclsid, spec_clsid_phaselith_apo()) {
            Ok(())
        } else {
            Err(FactoryError::ClassNotAvailable)
        }),
{
    let clsid = clsid_phaselith_apo();
    assert(spec_clsid_phaselith_apo().data4@ =~= clsid.data4@);
    if guid_eq(rclsid, &clsid) {
        Ok(())
    } else {
        Err(FactoryError::ClassNotAvailable)
    }
}

/// IID_IUnknown as a value.
pub open spec fn spec_iid_iunknown() -> Guid {
    Guid { data1: 0, data2: 0, data3: 0, data4: [0xC0u8, 0u8, 0u8, 0u8, 0u8, 0u8, 0u8, 0x46u8] }
}

/// This object's class identifier as a value.
pub open spec fn spec_clsid_phaselith_apo() -> Guid {
    Guid {
        data1: 0xA1B2C3D4u32,
        data2: 0xE5F6u16,
        data3: 0x4A5Bu16,
        data4: [0x9Cu8, 0x8Du8, 0x1Eu8, 0x2Fu8, 0x3Au8, 0x4Bu8, 0x5Cu8, 0x6Du8],
    }
}

/// The interface identifiers the aggregated object answers for (their
/// values come from the Windows SDK bindings).
#[derive(Debug, Clone, Copy)]
pub struct InterfaceIds {
    pub unknown: Guid,
    pub apo: Guid,
    pub apo_rt: Guid,
    pub apo_config: Guid,
    pub system_effects: Guid,
    pub system_effects2: Guid,
    pub system_effects3: Guid,
}

/// Which interface pointer a non-delegating QueryInterface hands out.
#[derive(Debug, Clone, Copy, PartialEq, Eq, Structural)]
pub enum QueryTarget {
    /// The non-delegating IUnknown itself.
    NonDelegating,
    Apo,
    ApoRt,
    ApoConfig,
    SystemEffects,
    SystemEffects2,
    SystemEffects3,
}

/// The target of a query for `riid`, checked in declaration order;
/// `None` means E_NOINTERFACE.
pub open spec fn spec_query_target(riid: Guid, ids: InterfaceIds) -> Option<QueryTarget> {
    if same_guid(riid, ids.unknown) {
        Some(QueryTarget::NonDelegating)
    } else if same_guid(riid, ids.apo) {
        Some(QueryTarget::Apo)
    } else if same_guid(riid, ids.apo_rt) {
        Some(QueryTarget::ApoRt)
    } else if same_guid(riid, ids.apo_config) {
        Some(QueryTarget::ApoConfig)
    } else if same_guid(riid, ids.system_effects) {
        Some(QueryTarget::SystemEffects)
    } else if same_guid(riid, ids.system_effects2) {
        Some(QueryTarget::SystemEffects2)
    } else if same_guid(riid, ids.system_effects3) {
        Some(QueryTarget::SystemEffects3)
    } else {
        None
    }
}

/// The non-delegating QueryInterface's choice of interface.
pub fn query_target(riid: &Guid, ids: &InterfaceIds) -> (r: Option<QueryTarget>)
    ensures
        r == spec_query_target(*riid, *ids),
{
    if guid_eq(riid, &ids.unknown) {
        Some(QueryTarget::NonDelegating)
    } else if guid_eq(riid, &ids.apo) {
        Some(QueryTarget::Apo)
    } else if guid_eq(riid, &ids.apo_rt) {
        Some(QueryTarget::ApoRt)
    } else if guid_eq(riid, &ids.apo_config) {
        Some(QueryTarget::ApoConfig)
    } else if guid_eq(riid, &ids.system_effects) {
        Some(QueryTarget::SystemEffects)
    } else if guid_eq(riid, &ids.system_effects2) {
        Some(QueryTarget::SystemEffects2)
    } else if guid_eq(riid, &ids.system_effects3) {
        Some(QueryTarget::SystemEffects3)
    } else {
        None
    }
}

/// The server lock count behind `DllCanUnloadNow` (it wraps, as the
/// atomic counter does).
#[derive(Debug, Clone, Copy, PartialEq, Eq, Structural)]
pub struct ServerLocks {
    pub count: u32,
}

impl ServerLocks {
    pub fn new() -> (r: Self)
        ensures
            r.count == 0,
    {
        ServerLocks { count: 0 }
    }

    /// `LockServer(true)` adds a lock, `LockServer(false)` removes one.
    pub fn lock_server(&mut self, lock: bool)
        ensures
            final(self).count == (if lock {
                (old(self).count + 1) % 0x1_0000_0000
            } else {
                (old(self).count - 1 + 0x1_0000_0000) % 0x1_0000_0000
            }),
    {
        if lock {
            self.count = self.count.wrapping_add(1);
        } else {
            self.count = self.count.wrapping_sub(1);
        }
    }

    /// The DLL may unload when no lock is held.
    pub fn can_unload(&self) -> (r: bool)
        ensures
            r == (self.count == 0),
    {
        self.count == 0
    }
}

/// Balanced server locks leave the DLL unloadable again: a lock followed by
/// an unlock restores the count.
pub proof fn lemma_lock_unlock_restores(count: u32)
    ensures
        ((((count + 1) % 0x1_0000_0000) - 1 + 0x1_0000_0000) % 0x1_0000_0000) == count,
{
}

/// The answer to a format query: the requested format when supported.
pub fn check_format(sample_rate: u32, bits_per_sample: u16, channels: u16, is_float: bool) -> (r: Result<(), ApoError>)
    ensures
        r == (if spec_format_supported(sample_rate, bits_per_sample, channels, is_float) {
            Ok(())
        } else {
            Err(ApoError::FormatNotSupported)
        }),
{
    if is_format_supported(sample_rate, bits_per_sample, channels, is_float) {
        Ok(())
    } else {
        Err(ApoError::FormatNotSupported)
    }
}

/// Frames needed at the input for a given output: the same number (no
/// rate change).
pub fn calc_input_frames(output_frame_count: u32) -> (r: u32)
    ensures
        r == output_frame_count,
{
    output_frame_count
}

/// Frames produced at the output for a given input: the same number.
pub fn calc_output_frames(input_frame_count: u32) -> (r: u32)
    ensures
        r == input_frame_count,
{
    input_frame_count
}

/// The lock protocol: a lock succeeds exactly when the object is not
/// locked; a second lock without an unlock in between is refused and
/// changes nothing; after an unlock, locking succeeds again.
pub proof fn lemma_lock_protocol(s: ApoComState, first: Option<ConnectionDescriptor>, second: Option<ConnectionDescriptor>)
    ensures
        spec_lock(s, first).1 is Ok <==> !s.locked,
        ({
            let locked = spec_lock(s, first).0;
            &&& locked.locked
            &&& spec_lock(locked, second) == (locked, Err::<(u32, u16, usize), ApoError>(ApoError::AlreadyInitialized))
            &&& spec_lock(ApoComState { locked: false, ..locked }, second).1 is Ok
        }),
{
}

/// Only an invalid input buffer or an empty one is skipped: any other
/// buffer (valid or silent) with frames and channels is processed in full,
/// interleaved over all channels, and marks the output valid afterwards.
/// An invalid input marks the output invalid; any other input without frames
/// marks it silent; one with frames but no channels runs nothing.
pub proof fn lemma_process_plan_runs_all_frames(channels: u16, input_flags: u32, valid_frames: u32)
    ensures
        (input_flags != BUFFER_INVALID && valid_frames != 0 && channels != 0) ==>
            spec_process_plan(channels, input_flags, valid_frames)
                == (ProcessPlan::Run { frames: valid_frames, sample_count: (valid_frames * channels) as u64 }),
        spec_process_plan(channels, BUFFER_SILENT, valid_frames) is Mark ==> valid_frames == 0,
        spec_process_plan(channels, input_flags, valid_frames) is Mark
            ==> (input_flags == BUFFER_INVALID || valid_frames == 0),
        input_flags == BUFFER_INVALID ==> spec_process_plan(channels, input_flags, valid_frames)
            == (ProcessPlan::Mark { flags: BUFFER_INVALID }),
        (input_flags != BUFFER_INVALID && valid_frames == 0) ==> spec_process_plan(channels, input_flags, valid_frames)
            == (ProcessPlan::Mark { flags: BUFFER_SILENT }),
        (input_flags != BUFFER_INVALID && valid_frames != 0 && channels == 0)
            ==> spec_process_plan(channels, input_flags, valid_frames) == ProcessPlan::Skip,
{
}

} // verus!
