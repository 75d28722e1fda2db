//! CoreAudio property dispatch: which properties each audio object has,
//! which are settable, how large their data is, and the exact bytes each
//! property's data holds (native little-endian layout, as the C structures
//! lie in memory on macOS).
//!
//! Floating-point values travel as IEEE-754 bit patterns. The host side
//! measures what needs floating-point arithmetic (the volume in dB, the
//! device's nominal rate as a frame count) and hands those readings in.
use vstd::prelude::*;
use vstd::bytes::{
    spec_u32_to_le_bytes, spec_u64_to_le_bytes, spec_u32_from_le_bytes, spec_u64_from_le_bytes,
    u32_to_le_bytes, u64_to_le_bytes, u32_from_le_bytes, u64_from_le_bytes,
};
use crate::constants::{
    PLUGIN_OBJECT_ID, DEVICE_OBJECT_ID, STREAM_INPUT_OBJECT_ID, STREAM_OUTPUT_OBJECT_ID,
    VOLUME_CONTROL_OBJECT_ID, AUDIO_FORMAT_LINEAR_PCM, PROPERTY_BASE_CLASS, PROPERTY_CLASS,
    PROPERTY_OWNER, PROPERTY_NAME, PROPERTY_MANUFACTURER, PROPERTY_OWNED_OBJECTS,
    PLUGIN_PROPERTY_DEVICE_LIST, PLUGIN_PROPERTY_TRANSLATE_UID, PLUGIN_PROPERTY_RESOURCE_BUNDLE,
    DEVICE_PROPERTY_UID, DEVICE_PROPERTY_MODEL_UID, DEVICE_PROPERTY_TRANSPORT,
    DEVICE_PROPERTY_RELATED, DEVICE_PROPERTY_CLOCK_DOMAIN, DEVICE_PROPERTY_ALIVE,
    DEVICE_PROPERTY_RUNNING, DEVICE_PROPERTY_CAN_BE_DEFAULT, DEVICE_PROPERTY_CAN_BE_SYSTEM,
    DEVICE_PROPERTY_LATENCY, DEVICE_PROPERTY_STREAMS, DEVICE_PROPERTY_CONTROLS,
    DEVICE_PROPERTY_SAFETY_OFFSET, DEVICE_PROPERTY_NOMINAL_SAMPLE_RATE,
    DEVICE_PROPERTY_AVAILABLE_SAMPLE_RATES, DEVICE_PROPERTY_HIDDEN,
    DEVICE_PROPERTY_PREFERRED_CHANNELS, DEVICE_PROPERTY_ZERO_TIME_STAMP_PERIOD,
    STREAM_PROPERTY_ACTIVE, STREAM_PROPERTY_DIRECTION, STREAM_PROPERTY_TERMINAL_TYPE,
    STREAM_PROPERTY_START_CHANNEL, STREAM_PROPERTY_LATENCY, STREAM_PROPERTY_VIRTUAL_FORMAT,
    STREAM_PROPERTY_PHYSICAL_FORMAT, STREAM_PROPERTY_AVAILABLE_VIRTUAL_FORMATS,
    STREAM_PROPERTY_AVAILABLE_PHYSICAL_FORMATS, LEVEL_CONTROL_PROPERTY_SCALAR_VALUE,
    LEVEL_CONTROL_PROPERTY_DECIBEL_VALUE, LEVEL_CONTROL_PROPERTY_DECIBEL_RANGE,
    LEVEL_CONTROL_PROPERTY_CONVERT_SCALAR_TO_DB, LEVEL_CONTROL_PROPERTY_CONVERT_DB_TO_SCALAR,
    CLASS_OBJECT, CLASS_PLUGIN, CLASS_DEVICE, CLASS_STREAM, CLASS_LEVEL_CONTROL,
    CLASS_VOLUME_CONTROL, TRANSPORT_TYPE_VIRTUAL, INPUT_TERMINAL_MICROPHONE,
    OUTPUT_TERMINAL_SPEAKER, SUPPORTED_SAMPLE_RATE_BITS, SUPPORTED_SAMPLE_RATES_HZ,
    DEFAULT_CHANNELS, DEFAULT_BITS_PER_CHANNEL,
};
use crate::object_model::{
    ObjectStore, ObjectType, spec_object_type, spec_children_of,
};
use crate::plugin_interface::AudioObjectPropertyAddress;

verus! {

/// Size of a CoreFoundation reference (a pointer; macOS is 64-bit only).
pub const CF_REF_SIZE: u32 = 8;

/// Size of an AudioValueRange (two f64).
pub const AUDIO_VALUE_RANGE_SIZE: u32 = 16;

/// Size of an AudioStreamBasicDescription (one f64, eight u32).
pub const ASBD_SIZE: u32 = 40;

/// Size of an AudioStreamRangedDescription (a description, two f64).
pub const RANGED_DESCRIPTION_SIZE: u32 = 56;

/// AudioStreamBasicDescription format flags.
pub const FORMAT_FLAG_FLOAT: u32 = 1;
pub const FORMAT_FLAG_BIG_ENDIAN: u32 = 2;
pub const FORMAT_FLAG_PACKED: u32 = 8;
pub const FORMAT_FLAG_NON_INTERLEAVED: u32 = 32;

/// Bit pattern of the f64 -96.0 (lowest volume in dB).
pub const DECIBEL_MIN_BITS: u64 = 0xc058_0000_0000_0000;

/// Bit pattern of the f64 0.0 (highest volume in dB).
pub const DECIBEL_MAX_BITS: u64 = 0;

/// AudioStreamBasicDescription with its f64 sample rate held by bit pattern.
#[derive(Debug, Clone, Copy, PartialEq, Eq, Structural)]
pub struct AudioStreamBasicDescription {
    pub sample_rate_bits: u64,
    pub format_id: u32,
    pub format_flags: u32,
    pub bytes_per_packet: u32,
    pub frames_per_packet: u32,
    pub bytes_per_frame: u32,
    pub channels_per_frame: u32,
    pub bits_per_channel: u32,
    pub reserved: u32,
}

/// AudioStreamRangedDescription: a format with its sample rate range.
#[derive(Debug, Clone, Copy, PartialEq, Eq, Structural)]
pub struct AudioStreamRangedDescription {
    pub format: AudioStreamBasicDescription,
    pub sample_rate_range_min_bits: u64,
    pub sample_rate_range_max_bits: u64,
}

/// The interleaved stereo 32-bit float format at a sample rate.
pub open spec fn spec_stereo_float32(sample_rate_bits: u64) -> AudioStreamBasicDescription {
    AudioStreamBasicDescription {
        sample_rate_bits,
        format_id: AUDIO_FORMAT_LINEAR_PCM,
        format_flags: FORMAT_FLAG_FLOAT | FORMAT_FLAG_PACKED,
        bytes_per_packet: 8,
        frames_per_packet: 1,
        bytes_per_frame: 8,
        channels_per_frame: 2,
        bits_per_channel: 32,
        reserved: 0,
    }
}

/// The in-memory bytes of a description: the f64 rate, then the eight u32.
pub open spec fn asbd_bytes(a: AudioStreamBasicDescription) -> Seq<u8> {
    spec_u64_to_le_bytes(a.sample_rate_bits) + spec_u32_to_le_bytes(a.format_id)
        + spec_u32_to_le_bytes(a.format_flags) + spec_u32_to_le_bytes(a.bytes_per_packet)
        + spec_u32_to_le_bytes(a.frames_per_packet) + spec_u32_to_le_bytes(a.bytes_per_frame)
        + spec_u32_to_le_bytes(a.channels_per_frame) + spec_u32_to_le_bytes(a.bits_per_channel)
        + spec_u32_to_le_bytes(a.reserved)
}

/// The in-memory bytes of a ranged description.
pub open spec fn ranged_bytes(r: AudioStreamRangedDescription) -> Seq<u8> {
    asbd_bytes(r.format) + spec_u64_to_le_bytes(r.sample_rate_range_min_bits)
        + spec_u64_to_le_bytes(r.sample_rate_range_max_bits)
}

/// The bytes of an AudioValueRange.
pub open spec fn value_range_bytes(min_bits: u64, max_bits: u64) -> Seq<u8> {
    spec_u64_to_le_bytes(min_bits) + spec_u64_to_le_bytes(max_bits)
}

/// The bytes of a list of u32 values.
pub open spec fn u32_list_bytes(vs: Seq<u32>) -> Seq<u8>
    decreases vs.len(),
{
    if vs.len() == 0 {
        seq![]
    } else {
        u32_list_bytes(vs.drop_last()) + spec_u32_to_le_bytes(vs.last())
    }
}

/// One AudioValueRange per supported rate, with minimum and maximum both
/// that rate.
pub open spec fn available_rate_ranges_bytes() -> Seq<u8> {
    value_range_bytes(SUPPORTED_SAMPLE_RATE_BITS[0], SUPPORTED_SAMPLE_RATE_BITS[0])
        + value_range_bytes(SUPPORTED_SAMPLE_RATE_BITS[1], SUPPORTED_SAMPLE_RATE_BITS[1])
        + value_range_bytes(SUPPORTED_SAMPLE_RATE_BITS[2], SUPPORTED_SAMPLE_RATE_BITS[2])
        + value_range_bytes(SUPPORTED_SAMPLE_RATE_BITS[3], SUPPORTED_SAMPLE_RATE_BITS[3])
}

/// The ranged stereo float format of one rate.
pub open spec fn rate_format(rate_bits: u64) -> AudioStreamRangedDescription {
    AudioStreamRangedDescription {
        format: spec_stereo_float32(rate_bits),
        sample_rate_range_min_bits: rate_bits,
        sample_rate_range_max_bits: rate_bits,
    }
}

/// One ranged stereo float format per supported rate.
pub open spec fn available_formats_bytes() -> Seq<u8> {
    ranged_bytes(rate_format(SUPPORTED_SAMPLE_RATE_BITS[0]))
        + ranged_bytes(rate_format(SUPPORTED_SAMPLE_RATE_BITS[1]))
        + ranged_bytes(rate_format(SUPPORTED_SAMPLE_RATE_BITS[2]))
        + ranged_bytes(rate_format(SUPPORTED_SAMPLE_RATE_BITS[3]))
}

proof fn lemma_le_lengths()
    ensures
        forall|x: u32| #[trigger] spec_u32_to_le_bytes(x).len() == 4,
        forall|x: u64| #[trigger] spec_u64_to_le_bytes(x).len() == 8,
{
    vstd::bytes::lemma_auto_spec_u32_to_from_le_bytes();
    vstd::bytes::lemma_auto_spec_u64_to_from_le_bytes();
}

proof fn lemma_u32_list_len(vs: Seq<u32>)
    ensures
        u32_list_bytes(vs).len() == 4 * vs.len(),
    decreases vs.len(),
{
    lemma_le_lengths();
    if vs.len() > 0 {
        lemma_u32_list_len(vs.drop_last());
    }
}

impl AudioStreamBasicDescription {
    /// The interleaved stereo 32-bit float format at a sample rate.
    pub fn stereo_float32(sample_rate_bits: u64) -> (r: Self)
        ensures
            r == spec_stereo_float32(sample_rate_bits),
    {
        let channels: u32 = DEFAULT_CHANNELS;
        let bits: u32 = DEFAULT_BITS_PER_CHANNEL;
        let bytes_per_frame: u32 = channels * (bits / 8);
        AudioStreamBasicDescription {
            sample_rate_bits,
            format_id: AUDIO_FORMAT_LINEAR_PCM,
            format_flags: FORMAT_FLAG_FLOAT | FORMAT_FLAG_PACKED,
            bytes_per_packet: bytes_per_frame,
            frames_per_packet: 1,
            bytes_per_frame,
            channels_per_frame: channels,
            bits_per_channel: bits,
            reserved: 0,
        }
    }

    /// The description's in-memory bytes.
    pub fn to_bytes(&self) -> (r: Vec<u8>)
        ensures
            r@ == asbd_bytes(*self),
            r@.len() == ASBD_SIZE,
    {
        proof {
            lemma_le_lengths();
        }
        let mut out = u64_to_le_bytes(self.sample_rate_bits);
        let mut b = u32_to_le_bytes(self.format_id);
        out.append(&mut b);
        let mut b = u32_to_le_bytes(self.format_flags);
        out.append(&mut b);
        let mut b = u32_to_le_bytes(self.bytes_per_packet);
        out.append(&mut b);
        let mut b = u32_to_le_bytes(self.frames_per_packet);
        out.append(&mut b);
        let mut b = u32_to_le_bytes(self.bytes_per_frame);
        out.append(&mut b);
        let mut b = u32_to_le_bytes(self.channels_per_frame);
        out.append(&mut b);
        let mut b = u32_to_le_bytes(self.bits_per_channel);
        out.append(&mut b);
        let mut b = u32_to_le_bytes(self.reserved);
        out.append(&mut b);
        out
    }
}

impl AudioStreamRangedDescription {
    /// The ranged description's in-memory bytes.
    pub fn to_bytes(&self) -> (r: Vec<u8>)
        ensures
            r@ == ranged_bytes(*self),
            r@.len() == RANGED_DESCRIPTION_SIZE,
    {
        proof {
            lemma_le_lengths();
        }
        let mut out = self.format.to_bytes();
        let mut b = u64_to_le_bytes(self.sample_rate_range_min_bits);
        out.append(&mut b);
        let mut b = u64_to_le_bytes(self.sample_rate_range_max_bits);
        out.append(&mut b);
        out
    }
}

fn u32_bytes(v: u32) -> (r: Vec<u8>)
    ensures
        r@ == spec_u32_to_le_bytes(v),
{
    u32_to_le_bytes(v)
}

fn u32_list_to_bytes(vs: &Vec<u32>) -> (r: Vec<u8>)
    ensures
        r@ == u32_list_bytes(vs@),
{
    let mut out: Vec<u8> = Vec::new();
    let mut i: usize = 0;
    while i < vs.len()
        invariant
            0 <= i <= vs.len(),
            out@ == u32_list_bytes(vs@.subrange(0, i as int)),
        decreases vs.len() - i,
    {
        let mut b = u32_to_le_bytes(vs[i]);
        out.append(&mut b);
        proof {
            let s = vs@.subrange(0, i as int + 1);
            assert(s.drop_last() =~= vs@.subrange(0, i as int));
        }
        i = i + 1;
    }
    assert(vs@.subrange(0, vs.len() as int) =~= vs@);
    out
}

fn value_range_to_bytes(min_bits: u64, max_bits: u64) -> (r: Vec<u8>)
    ensures
        r@ == value_range_bytes(min_bits, max_bits),
{
    let mut out = u64_to_le_bytes(min_bits);
    let mut b = u64_to_le_bytes(max_bits);
    out.append(&mut b);
    out
}

// ─── Which properties each object has ───

/// Properties of the plugin object.
pub open spec fn spec_has_plugin_property(selector: u32) -> bool {
    selector == PROPERTY_BASE_CLASS || selector == PROPERTY_CLASS || selector == PROPERTY_OWNER
        || selector == PROPERTY_NAME || selector == PROPERTY_MANUFACTURER
        || selector == PLUGIN_PROPERTY_DEVICE_LIST || selector == PLUGIN_PROPERTY_TRANSLATE_UID
        || selector == PLUGIN_PROPERTY_RESOURCE_BUNDLE
}

/// Properties of the device object.
pub open spec fn spec_has_device_property(selector: u32) -> bool {
    selector == PROPERTY_BASE_CLASS || selector == PROPERTY_CLASS || selector == PROPERTY_OWNER
        || selector == PROPERTY_NAME || selector == PROPERTY_MANUFACTURER
        || selector == PROPERTY_OWNED_OBJECTS || selector == DEVICE_PROPERTY_UID
        || selector == DEVICE_PROPERTY_MODEL_UID || selector == DEVICE_PROPERTY_TRANSPORT
        || selector == DEVICE_PROPERTY_RELATED || selector == DEVICE_PROPERTY_CLOCK_DOMAIN
        || selector == DEVICE_PROPERTY_ALIVE || selector == DEVICE_PROPERTY_RUNNING
        || selector == DEVICE_PROPERTY_CAN_BE_DEFAULT || selector == DEVICE_PROPERTY_CAN_BE_SYSTEM
        || selector == DEVICE_PROPERTY_LATENCY || selector == DEVICE_PROPERTY_STREAMS
        || selector == DEVICE_PROPERTY_CONTROLS || selector == DEVICE_PROPERTY_SAFETY_OFFSET
        || selector == DEVICE_PROPERTY_NOMINAL_SAMPLE_RATE
        || selector == DEVICE_PROPERTY_AVAILABLE_SAMPLE_RATES || selector == DEVICE_PROPERTY_HIDDEN
        || selector == DEVICE_PROPERTY_ZERO_TIME_STAMP_PERIOD
        || selector == DEVICE_PROPERTY_PREFERRED_CHANNELS
}

/// Properties of the two stream objects.
pub open spec fn spec_has_stream_property(selector: u32) -> bool {
    selector == PROPERTY_BASE_CLASS || selector == PROPERTY_CLASS || selector == PROPERTY_OWNER
        || selector == PROPERTY_NAME || selector == STREAM_PROPERTY_ACTIVE
        || selector == STREAM_PROPERTY_DIRECTION || selector == STREAM_PROPERTY_TERMINAL_TYPE
        || selector == STREAM_PROPERTY_START_CHANNEL || selector == STREAM_PROPERTY_LATENCY
        || selector == STREAM_PROPERTY_VIRTUAL_FORMAT || selector == STREAM_PROPERTY_PHYSICAL_FORMAT
        || selector == STREAM_PROPERTY_AVAILABLE_VIRTUAL_FORMATS
        || selector == STREAM_PROPERTY_AVAILABLE_PHYSICAL_FORMATS
}

/// Properties of the volume control object.
pub open spec fn spec_has_volume_property(selector: u32) -> bool {
    selector == PROPERTY_BASE_CLASS || selector == PROPERTY_CLASS || selector == PROPERTY_OWNER
        || selector == LEVEL_CONTROL_PROPERTY_SCALAR_VALUE
        || selector == LEVEL_CONTROL_PROPERTY_DECIBEL_VALUE
        || selector == LEVEL_CONTROL_PROPERTY_DECIBEL_RANGE
        || selector == LEVEL_CONTROL_PROPERTY_CONVERT_SCALAR_TO_DB
        || selector == LEVEL_CONTROL_PROPERTY_CONVERT_DB_TO_SCALAR
}

/// Whether an object has a property; unknown objects have none.
pub open spec fn spec_has_property(object_id: u32, selector: u32) -> bool {
    match spec_object_type(object_id) {
        None => false,
        Some(ObjectType::Plugin) => spec_has_plugin_property(selector),
        Some(ObjectType::Device) => spec_has_device_property(selector),
        Some(ObjectType::StreamInput) | Some(ObjectType::StreamOutput) => spec_has_stream_property(selector),
        Some(ObjectType::VolumeControl) => spec_has_volume_property(selector),
    }
}

/// Whether a property may be set: the device's nominal sample rate and the
/// volume control's scalar and decibel values.
pub open spec fn spec_is_property_settable(object_id: u32, selector: u32) -> bool {
    match spec_object_type(object_id) {
        Some(ObjectType::Device) => selector == DEVICE_PROPERTY_NOMINAL_SAMPLE_RATE,
        Some(ObjectType::VolumeControl) => selector == LEVEL_CONTROL_PROPERTY_SCALAR_VALUE
            || selector == LEVEL_CONTROL_PROPERTY_DECIBEL_VALUE,
        _ => false,
    }
}

pub fn has_plugin_property(selector: u32) -> (r: bool)
    ensures
        r == spec_has_plugin_property(selector),
{
    match selector {
        PROPERTY_BASE_CLASS | PROPERTY_CLASS | PROPERTY_OWNER | PROPERTY_NAME
        | PROPERTY_MANUFACTURER | PLUGIN_PROPERTY_DEVICE_LIST | PLUGIN_PROPERTY_TRANSLATE_UID
        | PLUGIN_PROPERTY_RESOURCE_BUNDLE => true,
        _ => false,
    }
}

pub fn has_device_property(selector: u32) -> (r: bool)
    ensures
        r == spec_has_device_property(selector),
{
    match selector {
        PROPERTY_BASE_CLASS | PROPERTY_CLASS | PROPERTY_OWNER | PROPERTY_NAME
        | PROPERTY_MANUFACTURER | PROPERTY_OWNED_OBJECTS | DEVICE_PROPERTY_UID
        | DEVICE_PROPERTY_MODEL_UID | DEVICE_PROPERTY_TRANSPORT | DEVICE_PROPERTY_RELATED
        | DEVICE_PROPERTY_CLOCK_DOMAIN | DEVICE_PROPERTY_ALIVE | DEVICE_PROPERTY_RUNNING
        | DEVICE_PROPERTY_CAN_BE_DEFAULT | DEVICE_PROPERTY_CAN_BE_SYSTEM | DEVICE_PROPERTY_LATENCY
        | DEVICE_PROPERTY_STREAMS | DEVICE_PROPERTY_CONTROLS | DEVICE_PROPERTY_SAFETY_OFFSET
        | DEVICE_PROPERTY_NOMINAL_SAMPLE_RATE | DEVICE_PROPERTY_AVAILABLE_SAMPLE_RATES
        | DEVICE_PROPERTY_HIDDEN | DEVICE_PROPERTY_ZERO_TIME_STAMP_PERIOD
        | DEVICE_PROPERTY_PREFERRED_CHANNELS => true,
        _ => false,
    }
}

pub fn has_stream_property(selector: u32) -> (r: bool)
    ensures
        r == spec_has_stream_property(selector),
{
    match selector {
        PROPERTY_BASE_CLASS | PROPERTY_CLASS | PROPERTY_OWNER | PROPERTY_NAME
        | STREAM_PROPERTY_ACTIVE | STREAM_PROPERTY_DIRECTION | STREAM_PROPERTY_TERMINAL_TYPE
        | STREAM_PROPERTY_START_CHANNEL | STREAM_PROPERTY_LATENCY | STREAM_PROPERTY_VIRTUAL_FORMAT
        | STREAM_PROPERTY_PHYSICAL_FORMAT | STREAM_PROPERTY_AVAILABLE_VIRTUAL_FORMATS
        | STREAM_PROPERTY_AVAILABLE_PHYSICAL_FORMATS => true,
        _ => false,
    }
}

pub fn has_volume_property(selector: u32) -> (r: bool)
    ensures
        r == spec_has_volume_property(selector),
{
    match selector {
        PROPERTY_BASE_CLASS | PROPERTY_CLASS | PROPERTY_OWNER | LEVEL_CONTROL_PROPERTY_SCALAR_VALUE
        | LEVEL_CONTROL_PROPERTY_DECIBEL_VALUE | LEVEL_CONTROL_PROPERTY_DECIBEL_RANGE
        | LEVEL_CONTROL_PROPERTY_CONVERT_SCALAR_TO_DB
        | LEVEL_CONTROL_PROPERTY_CONVERT_DB_TO_SCALAR => true,
        _ => false,
    }
}

/// Check if a property exists on a given object.
pub fn has_property(objects: &ObjectStore, object_id: u32, address: &AudioObjectPropertyAddress) -> (r: bool)
    ensures
        r == spec_has_property(object_id, address.selector),
{
    let obj_type = match objects.object_type(object_id) {
        Some(t) => t,
        None => return false,
    };
    match obj_type {
        ObjectType::Plugin => has_plugin_property(address.selector),
        ObjectType::Device => has_device_property(address.selector),
        ObjectType::StreamInput | ObjectType::StreamOutput => has_stream_property(address.selector),
        ObjectType::VolumeControl => has_volume_property(address.selector),
    }
}

/// Check if a property is settable.
pub fn is_property_settable(objects: &ObjectStore, object_id: u32, address: &AudioObjectPropertyAddress) -> (r: bool)
    ensures
        r == spec_is_property_settable(object_id, address.selector),
{
    let obj_type = match objects.object_type(object_id) {
        Some(t) => t,
        None => return false,
    };
    match obj_type {
        ObjectType::Device => address.selector == DEVICE_PROPERTY_NOMINAL_SAMPLE_RATE,
        ObjectType::VolumeControl => address.selector == LEVEL_CONTROL_PROPERTY_SCALAR_VALUE
            || address.selector == LEVEL_CONTROL_PROPERTY_DECIBEL_VALUE,
        _ => false,
    }
}

// ─── Property data sizes ───

/// Data size of a plugin property.
pub open spec fn spec_plugin_property_size(selector: u32) -> Option<u32> {
    if selector == PROPERTY_BASE_CLASS || selector == PROPERTY_CLASS || selector == PROPERTY_OWNER {
        Some(4)
    } else if selector == PROPERTY_NAME || selector == PROPERTY_MANUFACTURER
        || selector == PLUGIN_PROPERTY_RESOURCE_BUNDLE {
        Some(CF_REF_SIZE)
    } else if selector == PLUGIN_PROPERTY_DEVICE_LIST {
        Some((4 * spec_children_of(PLUGIN_OBJECT_ID).len()) as u32)
    } else if selector == PLUGIN_PROPERTY_TRANSLATE_UID {
        Some(4)
    } else {
        None
    }
}

/// Data size of a device property.
pub open spec fn spec_device_property_size(selector: u32) -> Option<u32> {
    if selector == PROPERTY_BASE_CLASS || selector == PROPERTY_CLASS || selector == PROPERTY_OWNER {
        Some(4)
    } else if selector == PROPERTY_NAME || selector == PROPERTY_MANUFACTURER {
        Some(CF_REF_SIZE)
    } else if selector == PROPERTY_OWNED_OBJECTS {
        Some((4 * spec_children_of(DEVICE_OBJECT_ID).len()) as u32)
    } else if selector == DEVICE_PROPERTY_UID || selector == DEVICE_PROPERTY_MODEL_UID {
        Some(CF_REF_SIZE)
    } else if selector == DEVICE_PROPERTY_TRANSPORT || selector == DEVICE_PROPERTY_CLOCK_DOMAIN
        || selector == DEVICE_PROPERTY_RELATED || selector == DEVICE_PROPERTY_ALIVE
        || selector == DEVICE_PROPERTY_RUNNING || selector == DEVICE_PROPERTY_CAN_BE_DEFAULT
        || selector == DEVICE_PROPERTY_CAN_BE_SYSTEM || selector == DEVICE_PROPERTY_LATENCY
        || selector == DEVICE_PROPERTY_SAFETY_OFFSET || selector == DEVICE_PROPERTY_HIDDEN
        || selector == DEVICE_PROPERTY_ZERO_TIME_STAMP_PERIOD {
        Some(4)
    } else if selector == DEVICE_PROPERTY_STREAMS {
        Some(8)
    } else if selector == DEVICE_PROPERTY_CONTROLS {
        Some(4)
    } else if selector == DEVICE_PROPERTY_NOMINAL_SAMPLE_RATE {
        Some(8)
    } else if selector == DEVICE_PROPERTY_AVAILABLE_SAMPLE_RATES {
        Some((4 * AUDIO_VALUE_RANGE_SIZE) as u32)
    } else if selector == DEVICE_PROPERTY_PREFERRED_CHANNELS {
        Some(8)
    } else {
        None
    }
}

/// Data size of a stream property.
pub open spec fn spec_stream_property_size(selector: u32) -> Option<u32> {
    if selector == PROPERTY_BASE_CLASS || selector == PROPERTY_CLASS || selector == PROPERTY_OWNER {
        Some(4)
    } else if selector == PROPERTY_NAME {
        Some(CF_REF_SIZE)
    } else if selector == STREAM_PROPERTY_ACTIVE || selector == STREAM_PROPERTY_DIRECTION
        || selector == STREAM_PROPERTY_TERMINAL_TYPE || selector == STREAM_PROPERTY_START_CHANNEL
        || selector == STREAM_PROPERTY_LATENCY {
        Some(4)
    } else if selector == STREAM_PROPERTY_VIRTUAL_FORMAT || selector == STREAM_PROPERTY_PHYSICAL_FORMAT {
        Some(ASBD_SIZE)
    } else if selector == STREAM_PROPERTY_AVAILABLE_VIRTUAL_FORMATS
        || selector == STREAM_PROPERTY_AVAILABLE_PHYSICAL_FORMATS {
        Some((4 * RANGED_DESCRIPTION_SIZE) as u32)
    } else {
        None
    }
}

/// Data size of a volume control property.
pub open spec fn spec_volume_property_size(selector: u32) -> Option<u32> {
    if selector == PROPERTY_BASE_CLASS || selector == PROPERTY_CLASS || selector == PROPERTY_OWNER
        || selector == LEVEL_CONTROL_PROPERTY_SCALAR_VALUE
        || selector == LEVEL_CONTROL_PROPERTY_DECIBEL_VALUE
        || selector == LEVEL_CONTROL_PROPERTY_CONVERT_SCALAR_TO_DB
        || selector == LEVEL_CONTROL_PROPERTY_CONVERT_DB_TO_SCALAR {
        Some(4)
    } else if selector == LEVEL_CONTROL_PROPERTY_DECIBEL_RANGE {
        Some(AUDIO_VALUE_RANGE_SIZE)
    } else {
        None
    }
}

/// Data size of a property of an object; `None` for unknown objects and
/// properties.
pub open spec fn spec_property_data_size(object_id: u32, selector: u32) -> Option<u32> {
    match spec_object_type(object_id) {
        None => None,
        Some(ObjectType::Plugin) => spec_plugin_property_size(selector),
        Some(ObjectType::Device) => spec_device_property_size(selector),
        Some(ObjectType::StreamInput) | Some(ObjectType::StreamOutput) => spec_stream_property_size(selector),
        Some(ObjectType::VolumeControl) => spec_volume_property_size(selector),
    }
}

pub fn plugin_property_size(objects: &ObjectStore, selector: u32) -> (r: Option<u32>)
    ensures
        r == spec_plugin_property_size(selector),
{
    match selector {
        PROPERTY_BASE_CLASS | PROPERTY_CLASS | PROPERTY_OWNER => Some(4),
        PROPERTY_NAME | PROPERTY_MANUFACTURER | PLUGIN_PROPERTY_RESOURCE_BUNDLE => Some(CF_REF_SIZE),
        PLUGIN_PROPERTY_DEVICE_LIST => {
            let n = objects.children_of(PLUGIN_OBJECT_ID).len();
            Some((n * 4) as u32)
        },
        PLUGIN_PROPERTY_TRANSLATE_UID => Some(4),
        _ => None,
    }
}

pub fn device_property_size(objects: &ObjectStore, selector: u32) -> (r: Option<u32>)
    ensures
        r == spec_device_property_size(selector),
{
    match selector {
        PROPERTY_BASE_CLASS | PROPERTY_CLASS | PROPERTY_OWNER => Some(4),
        PROPERTY_NAME | PROPERTY_MANUFACTURER => Some(CF_REF_SIZE),
        PROPERTY_OWNED_OBJECTS => {
            let n = objects.children_of(DEVICE_OBJECT_ID).len();
            Some((n * 4) as u32)
        },
        DEVICE_PROPERTY_UID | DEVICE_PROPERTY_MODEL_UID => Some(CF_REF_SIZE),
        DEVICE_PROPERTY_TRANSPORT | DEVICE_PROPERTY_CLOCK_DOMAIN => Some(4),
        DEVICE_PROPERTY_RELATED => Some(4),
        DEVICE_PROPERTY_ALIVE | DEVICE_PROPERTY_RUNNING => Some(4),
        DEVICE_PROPERTY_CAN_BE_DEFAULT | DEVICE_PROPERTY_CAN_BE_SYSTEM => Some(4),
        DEVICE_PROPERTY_LATENCY | DEVICE_PROPERTY_SAFETY_OFFSET => Some(4),
        DEVICE_PROPERTY_STREAMS => {
            let n = objects.streams_of(DEVICE_OBJECT_ID).len();
            Some((n * 4) as u32)
        },
        DEVICE_PROPERTY_CONTROLS => {
            let n = objects.controls_of(DEVICE_OBJECT_ID).len();
            Some((n * 4) as u32)
        },
        DEVICE_PROPERTY_NOMINAL_SAMPLE_RATE => Some(8),
        DEVICE_PROPERTY_AVAILABLE_SAMPLE_RATES => Some(4 * AUDIO_VALUE_RANGE_SIZE),
        DEVICE_PROPERTY_HIDDEN => Some(4),
        DEVICE_PROPERTY_ZERO_TIME_STAMP_PERIOD => Some(4),
        DEVICE_PROPERTY_PREFERRED_CHANNELS => Some(8),
        _ => None,
    }
}

pub fn stream_property_size(selector: u32) -> (r: Option<u32>)
    ensures
        r == spec_stream_property_size(selector),
{
    match selector {
        PROPERTY_BASE_CLASS | PROPERTY_CLASS | PROPERTY_OWNER => Some(4),
        PROPERTY_NAME => Some(CF_REF_SIZE),
        STREAM_PROPERTY_ACTIVE => Some(4),
        STREAM_PROPERTY_DIRECTION | STREAM_PROPERTY_TERMINAL_TYPE => Some(4),
        STREAM_PROPERTY_START_CHANNEL | STREAM_PROPERTY_LATENCY => Some(4),
        STREAM_PROPERTY_VIRTUAL_FORMAT | STREAM_PROPERTY_PHYSICAL_FORMAT => Some(ASBD_SIZE),
        STREAM_PROPERTY_AVAILABLE_VIRTUAL_FORMATS | STREAM_PROPERTY_AVAILABLE_PHYSICAL_FORMATS => Some(
            4 * RANGED_DESCRIPTION_SIZE,
        ),
        _ => None,
    }
}

pub fn volume_property_size(selector: u32) -> (r: Option<u32>)
    ensures
        r == spec_volume_property_size(selector),
{
    match selector {
        PROPERTY_BASE_CLASS | PROPERTY_CLASS | PROPERTY_OWNER => Some(4),
        LEVEL_CONTROL_PROPERTY_SCALAR_VALUE => Some(4),
        LEVEL_CONTROL_PROPERTY_DECIBEL_VALUE => Some(4),
        LEVEL_CONTROL_PROPERTY_DECIBEL_RANGE => Some(AUDIO_VALUE_RANGE_SIZE),
        LEVEL_CONTROL_PROPERTY_CONVERT_SCALAR_TO_DB => Some(4),
        LEVEL_CONTROL_PROPERTY_CONVERT_DB_TO_SCALAR => Some(4),
        _ => None,
    }
}

/// Get the data size for a property.
pub fn get_property_data_size(objects: &ObjectStore, object_id: u32, address: &AudioObjectPropertyAddress) -> (r: Option<u32>)
    ensures
        r == spec_property_data_size(object_id, address.selector),
{
    let obj_type = match objects.object_type(object_id) {
        Some(t) => t,
        None => return None,
    };
    match obj_type {
        ObjectType::Plugin => plugin_property_size(objects, address.selector),
        ObjectType::Device => device_property_size(objects, address.selector),
        ObjectType::StreamInput | ObjectType::StreamOutput => stream_property_size(address.selector),
        ObjectType::VolumeControl => volume_property_size(address.selector),
    }
}

/// An object has a property exactly when the property has a data size:
/// the HasProperty and GetPropertyDataSize answers agree everywhere.
pub proof fn lemma_has_iff_sized(object_id: u32, selector: u32)
    ensures
        spec_has_property(object_id, selector) <==> spec_property_data_size(object_id, selector) is Some,
{
}

/// Every settable property exists.
pub proof fn lemma_settable_implies_has(object_id: u32, selector: u32)
    ensures
        spec_is_property_settable(object_id, selector) ==> spec_has_property(object_id, selector),
{
}

// ─── Property data ───

/// What the host measured for answering property reads: the device's
/// nominal sample rate (f64 bit pattern) and the same rate as a whole
/// number of frames, whether IO runs, and the volume in decibels (f32 bit
/// pattern).
#[derive(Debug, Clone, Copy, PartialEq, Eq, Structural)]
pub struct PropertyReadings {
    pub sample_rate_bits: u64,
    pub sample_rate_frames: u32,
    pub io_running: bool,
    pub volume_decibel_bits: u32,
}

/// The data of a plugin property, where it is readable.
pub open spec fn spec_plugin_property_bytes(selector: u32) -> Option<Seq<u8>> {
    if selector == PROPERTY_BASE_CLASS {
        Some(spec_u32_to_le_bytes(CLASS_OBJECT))
    } else if selector == PROPERTY_CLASS {
        Some(spec_u32_to_le_bytes(CLASS_PLUGIN))
    } else if selector == PROPERTY_OWNER {
        Some(spec_u32_to_le_bytes(PLUGIN_OBJECT_ID))
    } else if selector == PROPERTY_NAME {
        // No CFString is created: the name reads as a null reference.
        Some(spec_u32_to_le_bytes(0))
    } else if selector == PLUGIN_PROPERTY_DEVICE_LIST {
        Some(u32_list_bytes(spec_children_of(PLUGIN_OBJECT_ID)))
    } else {
        None
    }
}

/// The data of a device property, where it is readable.
pub open spec fn spec_device_property_bytes(selector: u32, r: PropertyReadings) -> Option<Seq<u8>> {
    if selector == PROPERTY_BASE_CLASS {
        Some(spec_u32_to_le_bytes(CLASS_OBJECT))
    } else if selector == PROPERTY_CLASS {
        Some(spec_u32_to_le_bytes(CLASS_DEVICE))
    } else if selector == PROPERTY_OWNER {
        Some(spec_u32_to_le_bytes(PLUGIN_OBJECT_ID))
    } else if selector == PROPERTY_OWNED_OBJECTS {
        Some(u32_list_bytes(spec_children_of(DEVICE_OBJECT_ID)))
    } else if selector == DEVICE_PROPERTY_UID {
        // No CFString is created: the UID reads as a null reference.
        Some(spec_u32_to_le_bytes(0))
    } else if selector == DEVICE_PROPERTY_TRANSPORT {
        Some(spec_u32_to_le_bytes(TRANSPORT_TYPE_VIRTUAL))
    } else if selector == DEVICE_PROPERTY_CLOCK_DOMAIN {
        Some(spec_u32_to_le_bytes(0))
    } else if selector == DEVICE_PROPERTY_ALIVE {
        Some(spec_u32_to_le_bytes(1))
    } else if selector == DEVICE_PROPERTY_RUNNING {
        Some(spec_u32_to_le_bytes(if r.io_running { 1u32 } else { 0u32 }))
    } else if selector == DEVICE_PROPERTY_CAN_BE_DEFAULT || selector == DEVICE_PROPERTY_CAN_BE_SYSTEM {
        Some(spec_u32_to_le_bytes(1))
    } else if selector == DEVICE_PROPERTY_LATENCY || selector == DEVICE_PROPERTY_SAFETY_OFFSET
        || selector == DEVICE_PROPERTY_HIDDEN {
        Some(spec_u32_to_le_bytes(0))
    } else if selector == DEVICE_PROPERTY_STREAMS {
        Some(u32_list_bytes(seq![STREAM_INPUT_OBJECT_ID, STREAM_OUTPUT_OBJECT_ID]))
    } else if selector == DEVICE_PROPERTY_CONTROLS {
        Some(u32_list_bytes(seq![VOLUME_CONTROL_OBJECT_ID]))
    } else if selector == DEVICE_PROPERTY_NOMINAL_SAMPLE_RATE {
        Some(spec_u64_to_le_bytes(r.sample_rate_bits))
    } else if selector == DEVICE_PROPERTY_AVAILABLE_SAMPLE_RATES {
        Some(available_rate_ranges_bytes())
    } else if selector == DEVICE_PROPERTY_ZERO_TIME_STAMP_PERIOD {
        Some(spec_u32_to_le_bytes(r.sample_rate_frames))
    } else if selector == DEVICE_PROPERTY_PREFERRED_CHANNELS {
        Some(u32_list_bytes(seq![1u32, 2u32]))
    } else {
        None
    }
}

/// The data of a stream property, where it is readable; the input stream
/// differs from the output stream in direction and terminal type.
pub open spec fn spec_stream_property_bytes(is_input: bool, selector: u32, r: PropertyReadings) -> Option<Seq<u8>> {
    if selector == PROPERTY_BASE_CLASS {
        Some(spec_u32_to_le_bytes(CLASS_OBJECT))
    } else if selector == PROPERTY_CLASS {
        Some(spec_u32_to_le_bytes(CLASS_STREAM))
    } else if selector == PROPERTY_OWNER {
        Some(spec_u32_to_le_bytes(DEVICE_OBJECT_ID))
    } else if selector == STREAM_PROPERTY_ACTIVE {
        Some(spec_u32_to_le_bytes(1))
    } else if selector == STREAM_PROPERTY_DIRECTION {
        Some(spec_u32_to_le_bytes(if is_input { 1u32 } else { 0u32 }))
    } else if selector == STREAM_PROPERTY_TERMINAL_TYPE {
        Some(spec_u32_to_le_bytes(if is_input { INPUT_TERMINAL_MICROPHONE } else { OUTPUT_TERMINAL_SPEAKER }))
    } else if selector == STREAM_PROPERTY_START_CHANNEL {
        Some(spec_u32_to_le_bytes(1))
    } else if selector == STREAM_PROPERTY_LATENCY {
        Some(spec_u32_to_le_bytes(0))
    } else if selector == STREAM_PROPERTY_VIRTUAL_FORMAT || selector == STREAM_PROPERTY_PHYSICAL_FORMAT {
        Some(asbd_bytes(spec_stereo_float32(r.sample_rate_bits)))
    } else if selector == STREAM_PROPERTY_AVAILABLE_VIRTUAL_FORMATS
        || selector == STREAM_PROPERTY_AVAILABLE_PHYSICAL_FORMATS {
        Some(available_formats_bytes())
    } else {
        None
    }
}

/// The data of a volume control property, where it is readable.
pub open spec fn spec_volume_property_bytes(volume_scalar_bits: u32, selector: u32, r: PropertyReadings) -> Option<Seq<u8>> {
    if selector == PROPERTY_BASE_CLASS {
        Some(spec_u32_to_le_bytes(CLASS_LEVEL_CONTROL))
    } else if selector == PROPERTY_CLASS {
        Some(spec_u32_to_le_bytes(CLASS_VOLUME_CONTROL))
    } else if selector == PROPERTY_OWNER {
        Some(spec_u32_to_le_bytes(DEVICE_OBJECT_ID))
    } else if selector == LEVEL_CONTROL_PROPERTY_SCALAR_VALUE {
        Some(spec_u32_to_le_bytes(volume_scalar_bits))
    } else if selector == LEVEL_CONTROL_PROPERTY_DECIBEL_VALUE {
        Some(spec_u32_to_le_bytes(r.volume_decibel_bits))
    } else if selector == LEVEL_CONTROL_PROPERTY_DECIBEL_RANGE {
        Some(value_range_bytes(DECIBEL_MIN_BITS, DECIBEL_MAX_BITS))
    } else {
        None
    }
}

/// The data of a property of an object, where it is readable.
pub open spec fn spec_property_bytes(volume_scalar_bits: u32, object_id: u32, selector: u32, r: PropertyReadings) -> Option<Seq<u8>> {
    match spec_object_type(object_id) {
        None => None,
        Some(ObjectType::Plugin) => spec_plugin_property_bytes(selector),
        Some(ObjectType::Device) => spec_device_property_bytes(selector, r),
        Some(ObjectType::StreamInput) => spec_stream_property_bytes(true, selector, r),
        Some(ObjectType::StreamOutput) => spec_stream_property_bytes(false, selector, r),
        Some(ObjectType::VolumeControl) => spec_volume_property_bytes(volume_scalar_bits, selector, r),
    }
}

fn plugin_property_bytes(objects: &ObjectStore, selector: u32) -> (out: Option<Vec<u8>>)
    ensures
        match out {
            Some(v) => spec_plugin_property_bytes(selector) == Some(v@),
            None => spec_plugin_property_bytes(selector) is None,
        },
{
    match selector {
        PROPERTY_BASE_CLASS => Some(u32_bytes(CLASS_OBJECT)),
        PROPERTY_CLASS => Some(u32_bytes(CLASS_PLUGIN)),
        PROPERTY_OWNER => Some(u32_bytes(PLUGIN_OBJECT_ID)),
        PROPERTY_NAME => Some(u32_bytes(0)),
        PLUGIN_PROPERTY_DEVICE_LIST => {
            let devices = objects.children_of(PLUGIN_OBJECT_ID);
            Some(u32_list_to_bytes(&devices))
        },
        _ => None,
    }
}

fn available_rate_ranges_to_bytes() -> (out: Vec<u8>)
    ensures
        out@ == available_rate_ranges_bytes(),
{
    let rates = SUPPORTED_SAMPLE_RATE_BITS;
    let mut out = value_range_to_bytes(rates[0], rates[0]);
    let mut b = value_range_to_bytes(rates[1], rates[1]);
    out.append(&mut b);
    let mut b = value_range_to_bytes(rates[2], rates[2]);
    out.append(&mut b);
    let mut b = value_range_to_bytes(rates[3], rates[3]);
    out.append(&mut b);
    out
}

fn available_formats_to_bytes() -> (out: Vec<u8>)
    ensures
        out@ == available_formats_bytes(),
{
    let rates = SUPPORTED_SAMPLE_RATE_BITS;
    let mut out: Vec<u8> = Vec::new();
    let mut i: usize = 0;
    while i < 4
        invariant
            0 <= i <= 4,
            rates@ == SUPPORTED_SAMPLE_RATE_BITS@,
            i == 0 ==> out@ == Seq::<u8>::empty(),
            i == 1 ==> out@ == ranged_bytes(rate_format(SUPPORTED_SAMPLE_RATE_BITS[0])),
            i == 2 ==> out@ == ranged_bytes(rate_format(SUPPORTED_SAMPLE_RATE_BITS[0]))
                + ranged_bytes(rate_format(SUPPORTED_SAMPLE_RATE_BITS[1])),
            i == 3 ==> out@ == ranged_bytes(rate_format(SUPPORTED_SAMPLE_RATE_BITS[0]))
                + ranged_bytes(rate_format(SUPPORTED_SAMPLE_RATE_BITS[1]))
                + ranged_bytes(rate_format(SUPPORTED_SAMPLE_RATE_BITS[2])),
            i == 4 ==> out@ == available_formats_bytes(),
        decreases 4 - i,
    {
        let r = rates[i];
        let d = AudioStreamRangedDescription {
            format: AudioStreamBasicDescription::stereo_float32(r),
            sample_rate_range_min_bits: r,
            sample_rate_range_max_bits: r,
        };
        let mut b = d.to_bytes();
        proof {
            assert(d == rate_format(SUPPORTED_SAMPLE_RATE_BITS[i as int]));
            if i == 0 {
                assert(Seq::<u8>::empty() + b@ =~= b@);
            }
        }
        out.append(&mut b);
        i = i + 1;
    }
    out
}

fn device_property_bytes(objects: &ObjectStore, selector: u32, r: &PropertyReadings) -> (out: Option<Vec<u8>>)
    ensures
        match out {
            Some(v) => spec_device_property_bytes(selector, *r) == Some(v@),
            None => spec_device_property_bytes(selector, *r) is None,
        },
{
    match selector {
        PROPERTY_BASE_CLASS => Some(u32_bytes(CLASS_OBJECT)),
        PROPERTY_CLASS => Some(u32_bytes(CLASS_DEVICE)),
        PROPERTY_OWNER => Some(u32_bytes(PLUGIN_OBJECT_ID)),
        PROPERTY_OWNED_OBJECTS => {
            let kids = objects.children_of(DEVICE_OBJECT_ID);
            Some(u32_list_to_bytes(&kids))
        },
        DEVICE_PROPERTY_UID => Some(u32_bytes(0)),
        DEVICE_PROPERTY_TRANSPORT => Some(u32_bytes(TRANSPORT_TYPE_VIRTUAL)),
        DEVICE_PROPERTY_CLOCK_DOMAIN => Some(u32_bytes(0)),
        DEVICE_PROPERTY_ALIVE => Some(u32_bytes(1)),
        DEVICE_PROPERTY_RUNNING => Some(u32_bytes(if r.io_running { 1 } else { 0 })),
        DEVICE_PROPERTY_CAN_BE_DEFAULT => Some(u32_bytes(1)),
        DEVICE_PROPERTY_CAN_BE_SYSTEM => Some(u32_bytes(1)),
        DEVICE_PROPERTY_LATENCY => Some(u32_bytes(0)),
        DEVICE_PROPERTY_SAFETY_OFFSET => Some(u32_bytes(0)),
        DEVICE_PROPERTY_HIDDEN => Some(u32_bytes(0)),
        DEVICE_PROPERTY_STREAMS => {
            let streams = objects.streams_of(DEVICE_OBJECT_ID);
            Some(u32_list_to_bytes(&streams))
        },
        DEVICE_PROPERTY_CONTROLS => {
            let controls = objects.controls_of(DEVICE_OBJECT_ID);
            Some(u32_list_to_bytes(&controls))
        },
        DEVICE_PROPERTY_NOMINAL_SAMPLE_RATE => Some(u64_to_le_bytes(r.sample_rate_bits)),
        DEVICE_PROPERTY_AVAILABLE_SAMPLE_RATES => Some(available_rate_ranges_to_bytes()),
        DEVICE_PROPERTY_ZERO_TIME_STAMP_PERIOD => Some(u32_bytes(r.sample_rate_frames)),
        DEVICE_PROPERTY_PREFERRED_CHANNELS => {
            let channels: Vec<u32> = vec![1, 2];
            Some(u32_list_to_bytes(&channels))
        },
        _ => None,
    }
}

fn stream_property_bytes(is_input: bool, selector: u32, r: &PropertyReadings) -> (out: Option<Vec<u8>>)
    ensures
        match out {
            Some(v) => spec_stream_property_bytes(is_input, selector, *r) == Some(v@),
            None => spec_stream_property_bytes(is_input, selector, *r) is None,
        },
{
    match selector {
        PROPERTY_BASE_CLASS => Some(u32_bytes(CLASS_OBJECT)),
        PROPERTY_CLASS => Some(u32_bytes(CLASS_STREAM)),
        PROPERTY_OWNER => Some(u32_bytes(DEVICE_OBJECT_ID)),
        STREAM_PROPERTY_ACTIVE => Some(u32_bytes(1)),
        STREAM_PROPERTY_DIRECTION => {
            let dir: u32 = if is_input { 1 } else { 0 };
            Some(u32_bytes(dir))
        },
        STREAM_PROPERTY_TERMINAL_TYPE => {
            let term = if is_input { INPUT_TERMINAL_MICROPHONE } else { OUTPUT_TERMINAL_SPEAKER };
            Some(u32_bytes(term))
        },
        STREAM_PROPERTY_START_CHANNEL => Some(u32_bytes(1)),
        STREAM_PROPERTY_LATENCY => Some(u32_bytes(0)),
        STREAM_PROPERTY_VIRTUAL_FORMAT | STREAM_PROPERTY_PHYSICAL_FORMAT => {
            let asbd = AudioStreamBasicDescription::stereo_float32(r.sample_rate_bits);
            Some(asbd.to_bytes())
        },
        STREAM_PROPERTY_AVAILABLE_VIRTUAL_FORMATS | STREAM_PROPERTY_AVAILABLE_PHYSICAL_FORMATS => Some(
            available_formats_to_bytes(),
        ),
        _ => None,
    }
}

fn volume_property_bytes(objects: &ObjectStore, selector: u32, r: &PropertyReadings) -> (out: Option<Vec<u8>>)
    ensures
        match out {
            Some(v) => spec_volume_property_bytes(objects.volume_scalar_bits, selector, *r) == Some(v@),
            None => spec_volume_property_bytes(objects.volume_scalar_bits, selector, *r) is None,
        },
{
    match selector {
        PROPERTY_BASE_CLASS => Some(u32_bytes(CLASS_LEVEL_CONTROL)),
        PROPERTY_CLASS => Some(u32_bytes(CLASS_VOLUME_CONTROL)),
        PROPERTY_OWNER => Some(u32_bytes(DEVICE_OBJECT_ID)),
        LEVEL_CONTROL_PROPERTY_SCALAR_VALUE => Some(u32_bytes(objects.volume_scalar_bits)),
        LEVEL_CONTROL_PROPERTY_DECIBEL_VALUE => Some(u32_bytes(r.volume_decibel_bits)),
        LEVEL_CONTROL_PROPERTY_DECIBEL_RANGE => Some(value_range_to_bytes(DECIBEL_MIN_BITS, DECIBEL_MAX_BITS)),
        _ => None,
    }
}

/// Get property data: the bytes to write to the caller's buffer, or `None`
/// when the object or property is unknown, the property is not readable, or
/// the data does not fit in `available_size` bytes. The number of bytes
/// written is the length of the result.
pub fn get_property_data(
    objects: &ObjectStore,
    object_id: u32,
    address: &AudioObjectPropertyAddress,
    readings: &PropertyReadings,
    available_size: u32,
) -> (out: Option<Vec<u8>>)
    ensures
        match spec_property_bytes(objects.volume_scalar_bits, object_id, address.selector, *readings) {
            Some(bytes) => if bytes.len() <= available_size {
                out is Some && out->0@ == bytes
            } else {
                out is None
            },
            None => out is None,
        },
{
    let obj_type = match objects.object_type(object_id) {
        Some(t) => t,
        None => return None,
    };
    let data = match obj_type {
        ObjectType::Plugin => plugin_property_bytes(objects, address.selector),
        ObjectType::Device => device_property_bytes(objects, address.selector, readings),
        ObjectType::StreamInput => stream_property_bytes(true, address.selector, readings),
        ObjectType::StreamOutput => stream_property_bytes(false, address.selector, readings),
        ObjectType::VolumeControl => volume_property_bytes(objects, address.selector, readings),
    };
    match data {
        Some(bytes) => {
            if bytes.len() <= available_size as usize {
                Some(bytes)
            } else {
                None
            }
        },
        None => None,
    }
}

proof fn lemma_layout_lengths()
    ensures
        forall|a: AudioStreamBasicDescription| #[trigger] asbd_bytes(a).len() == ASBD_SIZE,
        forall|r: AudioStreamRangedDescription| #[trigger] ranged_bytes(r).len() == RANGED_DESCRIPTION_SIZE,
        forall|lo: u64, hi: u64| #[trigger] value_range_bytes(lo, hi).len() == AUDIO_VALUE_RANGE_SIZE,
        available_rate_ranges_bytes().len() == 4 * AUDIO_VALUE_RANGE_SIZE,
        available_formats_bytes().len() == 4 * RANGED_DESCRIPTION_SIZE,
{
    lemma_le_lengths();
}

/// Wherever a property's data is readable, GetPropertyData writes exactly
/// the number of bytes GetPropertyDataSize announces, and the property
/// exists. The two name placeholders (the plugin's name and the device's
/// UID, which read as a 4-byte null reference where a CFString reference is
/// announced) are the exceptions.
pub proof fn lemma_data_matches_size(volume_scalar_bits: u32, object_id: u32, selector: u32, r: PropertyReadings)
    requires
        !(object_id == PLUGIN_OBJECT_ID && selector == PROPERTY_NAME),
        !(object_id == DEVICE_OBJECT_ID && selector == DEVICE_PROPERTY_UID),
    ensures
        spec_property_bytes(volume_scalar_bits, object_id, selector, r) matches Some(bytes) ==> {
            &&& spec_has_property(object_id, selector)
            &&& spec_property_data_size(object_id, selector) == Some(bytes.len() as u32)
        },
{
    lemma_le_lengths();
    lemma_layout_lengths();
    lemma_u32_list_len(spec_children_of(PLUGIN_OBJECT_ID));
    lemma_u32_list_len(spec_children_of(DEVICE_OBJECT_ID));
    lemma_u32_list_len(seq![STREAM_INPUT_OBJECT_ID, STREAM_OUTPUT_OBJECT_ID]);
    lemma_u32_list_len(seq![VOLUME_CONTROL_OBJECT_ID]);
    lemma_u32_list_len(seq![1u32, 2u32]);
}

// ─── Setting properties ───

/// What a SetPropertyData call does.
#[derive(Debug, Clone, Copy, PartialEq, Eq, Structural)]
pub enum PropertyWrite {
    /// Switch the device to a supported nominal sample rate (f64 bit
    /// pattern, and the same rate in Hz) and reinitialise the IO engine at it.
    SampleRate { rate_bits: u64, rate_hz: u32 },
    /// Set the volume to this f32 (bit pattern), clamped to 0.0..=1.0.
    VolumeScalar { scalar_bits: u32 },
    /// Refuse with kAudioHardwareUnknownPropertyError.
    Rejected,
}

/// The rate in Hz of a supported nominal rate, given by its f64 bit
/// pattern; `None` for any other value.
pub open spec fn spec_supported_rate_hz(rate_bits: u64) -> Option<u32> {
    if rate_bits == SUPPORTED_SAMPLE_RATE_BITS[0] {
        Some(SUPPORTED_SAMPLE_RATES_HZ[0])
    } else if rate_bits == SUPPORTED_SAMPLE_RATE_BITS[1] {
        Some(SUPPORTED_SAMPLE_RATES_HZ[1])
    } else if rate_bits == SUPPORTED_SAMPLE_RATE_BITS[2] {
        Some(SUPPORTED_SAMPLE_RATES_HZ[2])
    } else if rate_bits == SUPPORTED_SAMPLE_RATE_BITS[3] {
        Some(SUPPORTED_SAMPLE_RATES_HZ[3])
    } else {
        None
    }
}

/// The effect of writing `data` to a property of an object: the device's
/// nominal rate takes an f64 (its first 8 bytes) that must be a supported
/// rate; the volume's scalar value takes an f32 (its first 4 bytes); every
/// other write, and every write with too little data, is rejected.
pub open spec fn spec_property_write(object_id: u32, selector: u32, data: Seq<u8>) -> PropertyWrite {
    match spec_object_type(object_id) {
        Some(ObjectType::Device) => if selector == DEVICE_PROPERTY_NOMINAL_SAMPLE_RATE && data.len() >= 8 {
            let bits = spec_u64_from_le_bytes(data.subrange(0, 8));
            match spec_supported_rate_hz(bits) {
                Some(hz) => PropertyWrite::SampleRate { rate_bits: bits, rate_hz: hz },
                None => PropertyWrite::Rejected,
            }
        } else {
            PropertyWrite::Rejected
        },
        Some(ObjectType::VolumeControl) => if selector == LEVEL_CONTROL_PROPERTY_SCALAR_VALUE && data.len() >= 4 {
            PropertyWrite::VolumeScalar { scalar_bits: spec_u32_from_le_bytes(data.subrange(0, 4)) }
        } else {
            PropertyWrite::Rejected
        },
        _ => PropertyWrite::Rejected,
    }
}

/// The rate in Hz of a supported nominal rate bit pattern.
pub fn supported_rate_hz(rate_bits: u64) -> (r: Option<u32>)
    ensures
        r == spec_supported_rate_hz(rate_bits),
{
    let rates = SUPPORTED_SAMPLE_RATE_BITS;
    let hz = SUPPORTED_SAMPLE_RATES_HZ;
    let mut i: usize = 0;
    while i < 4
        invariant
            0 <= i <= 4,
            rates@ == SUPPORTED_SAMPLE_RATE_BITS@,
            hz@ == SUPPORTED_SAMPLE_RATES_HZ@,
            forall|j: int| 0 <= j < i ==> rates@[j] != rate_bits,
        decreases 4 - i,
    {
        if rates[i] == rate_bits {
            return Some(hz[i]);
        }
        i = i + 1;
    }
    None
}

/// Decide what writing `data` (the caller's buffer; empty when it passed
/// none) to a property does.
pub fn set_property_data(
    objects: &ObjectStore,
    object_id: u32,
    address: &AudioObjectPropertyAddress,
    data: &[u8],
) -> (w: PropertyWrite)
    ensures
        w == spec_property_write(object_id, address.selector, data@),
{
    let obj_type = match objects.object_type(object_id) {
        Some(t) => t,
        None => return PropertyWrite::Rejected,
    };
    match obj_type {
        ObjectType::Device => {
            if address.selector == DEVICE_PROPERTY_NOMINAL_SAMPLE_RATE && data.len() >= 8 {
                let bits = u64_from_le_bytes(&data[0..8]);
                match supported_rate_hz(bits) {
                    Some(hz) => PropertyWrite::SampleRate { rate_bits: bits, rate_hz: hz },
                    None => PropertyWrite::Rejected,
                }
            } else {
                PropertyWrite::Rejected
            }
        },
        ObjectType::VolumeControl => {
            if address.selector == LEVEL_CONTROL_PROPERTY_SCALAR_VALUE && data.len() >= 4 {
                PropertyWrite::VolumeScalar { scalar_bits: u32_from_le_bytes(&data[0..4]) }
            } else {
                PropertyWrite::Rejected
            }
        },
        _ => PropertyWrite::Rejected,
    }
}

/// A write that is accepted goes to a settable property, and a sample-rate
/// write reads back: after it, the device's nominal rate property holds the
/// written bytes.
pub proof fn lemma_accepted_writes_are_settable(object_id: u32, selector: u32, data: Seq<u8>, r: PropertyReadings, volume_scalar_bits: u32)
    ensures
        spec_property_write(object_id, selector, data) != PropertyWrite::Rejected
            ==> spec_is_property_settable(object_id, selector),
        spec_property_write(object_id, selector, data) matches PropertyWrite::SampleRate { rate_bits, rate_hz }
            ==> r.sample_rate_bits == rate_bits ==> spec_property_bytes(volume_scalar_bits, object_id, selector, r)
                == Some(data.subrange(0, 8)),
{
    vstd::bytes::lemma_auto_spec_u64_to_from_le_bytes();
}

/// The device reports whether it is running from the IO state handed in:
/// its DeviceIsRunning data is four bytes that read back as 1 while IO
/// runs and as 0 otherwise.
pub proof fn lemma_running_reflects_io(volume_scalar_bits: u32, r: PropertyReadings)
    ensures
        spec_property_bytes(volume_scalar_bits, DEVICE_OBJECT_ID, DEVICE_PROPERTY_RUNNING, r) is Some,
        ({
            let data = spec_property_bytes(volume_scalar_bits, DEVICE_OBJECT_ID, DEVICE_PROPERTY_RUNNING, r)->0;
            &&& data.len() == 4
            &&& spec_u32_from_le_bytes(data) == (if r.io_running { 1u32 } else { 0u32 })
        }),
{
    vstd::bytes::lemma_auto_spec_u32_to_from_le_bytes();
    let x: u32 = if r.io_running { 1u32 } else { 0u32 };
    assert(spec_device_property_bytes(DEVICE_PROPERTY_RUNNING, r) == Some(spec_u32_to_le_bytes(x)));
    assert(spec_u32_to_le_bytes(x).len() == 4);
    assert(spec_u32_from_le_bytes(spec_u32_to_le_bytes(x)) == x);
}

/// What the host hands in is what it reads back: the device's nominal
/// sample rate decodes to the rate's bits and its zero-time-stamp period to
/// the frame count, the volume control's scalar and decibel values decode to
/// the values handed in, and the input stream reports direction 1, the output
/// stream direction 0.
pub proof fn lemma_readings_read_back(volume_scalar_bits: u32, r: PropertyReadings)
    ensures
        ({
            let rate = spec_property_bytes(volume_scalar_bits, DEVICE_OBJECT_ID, DEVICE_PROPERTY_NOMINAL_SAMPLE_RATE, r);
            let period = spec_property_bytes(volume_scalar_bits, DEVICE_OBJECT_ID, DEVICE_PROPERTY_ZERO_TIME_STAMP_PERIOD, r);
            let scalar = spec_property_bytes(volume_scalar_bits, VOLUME_CONTROL_OBJECT_ID, LEVEL_CONTROL_PROPERTY_SCALAR_VALUE, r);
            let db = spec_property_bytes(volume_scalar_bits, VOLUME_CONTROL_OBJECT_ID, LEVEL_CONTROL_PROPERTY_DECIBEL_VALUE, r);
            let dir_in = spec_property_bytes(volume_scalar_bits, STREAM_INPUT_OBJECT_ID, STREAM_PROPERTY_DIRECTION, r);
            let dir_out = spec_property_bytes(volume_scalar_bits, STREAM_OUTPUT_OBJECT_ID, STREAM_PROPERTY_DIRECTION, r);
            &&& rate is Some && rate->0.len() == 8 && spec_u64_from_le_bytes(rate->0) == r.sample_rate_bits
            &&& period is Some && period->0.len() == 4 && spec_u32_from_le_bytes(period->0) == r.sample_rate_frames
            &&& scalar is Some && scalar->0.len() == 4 && spec_u32_from_le_bytes(scalar->0) == volume_scalar_bits
            &&& db is Some && db->0.len() == 4 && spec_u32_from_le_bytes(db->0) == r.volume_decibel_bits
            &&& dir_in is Some && dir_in->0.len() == 4 && spec_u32_from_le_bytes(dir_in->0) == 1
            &&& dir_out is Some && dir_out->0.len() == 4 && spec_u32_from_le_bytes(dir_out->0) == 0
        }),
{
    vstd::bytes::lemma_auto_spec_u32_to_from_le_bytes();
    vstd::bytes::lemma_auto_spec_u64_to_from_le_bytes();
    assert(spec_device_property_bytes(DEVICE_PROPERTY_NOMINAL_SAMPLE_RATE, r) == Some(spec_u64_to_le_bytes(r.sample_rate_bits)));
    assert(spec_u64_to_le_bytes(r.sample_rate_bits).len() == 8);
    assert(spec_u64_from_le_bytes(spec_u64_to_le_bytes(r.sample_rate_bits)) == r.sample_rate_bits);
    assert(spec_device_property_bytes(DEVICE_PROPERTY_ZERO_TIME_STAMP_PERIOD, r) == Some(spec_u32_to_le_bytes(r.sample_rate_frames)));
    assert(spec_u32_to_le_bytes(r.sample_rate_frames).len() == 4);
    assert(spec_u32_from_le_bytes(spec_u32_to_le_bytes(r.sample_rate_frames)) == r.sample_rate_frames);
    assert(spec_volume_property_bytes(volume_scalar_bits, LEVEL_CONTROL_PROPERTY_SCALAR_VALUE, r) == Some(spec_u32_to_le_bytes(volume_scalar_bits)));
    assert(spec_u32_to_le_bytes(volume_scalar_bits).len() == 4);
    assert(spec_u32_from_le_bytes(spec_u32_to_le_bytes(volume_scalar_bits)) == volume_scalar_bits);
    assert(spec_volume_property_bytes(volume_scalar_bits, LEVEL_CONTROL_PROPERTY_DECIBEL_VALUE, r) == Some(spec_u32_to_le_bytes(r.volume_decibel_bits)));
    assert(spec_u32_to_le_bytes(r.volume_decibel_bits).len() == 4);
    assert(spec_u32_from_le_bytes(spec_u32_to_le_bytes(r.volume_decibel_bits)) == r.volume_decibel_bits);
    assert(spec_stream_property_bytes(true, STREAM_PROPERTY_DIRECTION, r) == Some(spec_u32_to_le_bytes(1)));
    assert(spec_u32_to_le_bytes(1).len() == 4);
    assert(spec_u32_from_le_bytes(spec_u32_to_le_bytes(1)) == 1);
    assert(spec_stream_property_bytes(false, STREAM_PROPERTY_DIRECTION, r) == Some(spec_u32_to_le_bytes(0)));
    assert(spec_u32_to_le_bytes(0).len() == 4);
    assert(spec_u32_from_le_bytes(spec_u32_to_le_bytes(0)) == 0);
}

} // verus!
