//! Constants of the CoreAudio HAL plugin: UUIDs, object IDs, property
//! selectors and class IDs (four-character codes, most significant byte
//! first), and the supported sample rates.
use vstd::prelude::*;

verus! {

/// Plugin factory UUID (declared under CFPlugInFactories).
pub const FACTORY_UUID: [u8; 16] = [
    0xA1, 0xB2, 0xC3, 0xD4, 0xE5, 0xF6, 0x01, 0x23, 0x45, 0x67, 0x89, 0xAB, 0xCD, 0xEF, 0x00, 0x01,
];

/// AudioServerPlugIn type UUID 443ABAB8-E7B3-491A-B985-BEB9187030DB.
pub const AUDIO_SERVER_PLUGIN_TYPE_UUID: [u8; 16] = [
    0x44, 0x3A, 0xBA, 0xB8, 0xE7, 0xB3, 0x49, 0x1A, 0xB9, 0x85, 0xBE, 0xB9, 0x18, 0x70, 0x30, 0xDB,
];

/// Device UUID.
pub const DEVICE_UUID: [u8; 16] = [
    0xA1, 0xB2, 0xC3, 0xD4, 0xE5, 0xF6, 0x01, 0x23, 0x45, 0x67, 0x89, 0xAB, 0xCD, 0xEF, 0x00, 0x10,
];

/// Input stream UUID.
pub const STREAM_INPUT_UUID: [u8; 16] = [
    0xA1, 0xB2, 0xC3, 0xD4, 0xE5, 0xF6, 0x01, 0x23, 0x45, 0x67, 0x89, 0xAB, 0xCD, 0xEF, 0x00, 0x20,
];

/// Output stream UUID.
pub const STREAM_OUTPUT_UUID: [u8; 16] = [
    0xA1, 0xB2, 0xC3, 0xD4, 0xE5, 0xF6, 0x01, 0x23, 0x45, 0x67, 0x89, 0xAB, 0xCD, 0xEF, 0x00, 0x21,
];

/// Volume control UUID.
pub const VOLUME_CONTROL_UUID: [u8; 16] = [
    0xA1, 0xB2, 0xC3, 0xD4, 0xE5, 0xF6, 0x01, 0x23, 0x45, 0x67, 0x89, 0xAB, 0xCD, 0xEF, 0x00, 0x30,
];

// Audio object IDs: the plugin object is always 1; the others are fixed here.
pub const PLUGIN_OBJECT_ID: u32 = 1;
pub const DEVICE_OBJECT_ID: u32 = 100;
pub const STREAM_INPUT_OBJECT_ID: u32 = 200;
pub const STREAM_OUTPUT_OBJECT_ID: u32 = 201;
pub const VOLUME_CONTROL_OBJECT_ID: u32 = 300;

/// 'lpcm': linear PCM format ID.
pub const AUDIO_FORMAT_LINEAR_PCM: u32 = 0x6C70636D;

// AudioObject property selectors.
pub const PROPERTY_BASE_CLASS: u32 = 0x62636C73;
pub const PROPERTY_CLASS: u32 = 0x636C6173;
pub const PROPERTY_OWNER: u32 = 0x73746476;
pub const PROPERTY_NAME: u32 = 0x6C6E616D;
pub const PROPERTY_MANUFACTURER: u32 = 0x6C6D616B;
pub const PROPERTY_OWNED_OBJECTS: u32 = 0x6F776E64;
pub const PROPERTY_IDENTIFY: u32 = 0x69646E74;
pub const PROPERTY_SERIAL_NUMBER: u32 = 0x73726C6E;
pub const PROPERTY_FIRMWARE_VERSION: u32 = 0x66776D76;

// Plugin property selectors.
pub const PLUGIN_PROPERTY_DEVICE_LIST: u32 = 0x64657623;
pub const PLUGIN_PROPERTY_TRANSLATE_UID: u32 = 0x75696474;
pub const PLUGIN_PROPERTY_RESOURCE_BUNDLE: u32 = 0x7372636E;

// Device property selectors.
pub const DEVICE_PROPERTY_UID: u32 = 0x75696420;
pub const DEVICE_PROPERTY_MODEL_UID: u32 = 0x6D756964;
pub const DEVICE_PROPERTY_TRANSPORT: u32 = 0x7472616E;
pub const DEVICE_PROPERTY_RELATED: u32 = 0x616B696E;
pub const DEVICE_PROPERTY_CLOCK_DOMAIN: u32 = 0x636C6B64;
pub const DEVICE_PROPERTY_ALIVE: u32 = 0x616C6976;
pub const DEVICE_PROPERTY_RUNNING: u32 = 0x676F696E;
pub const DEVICE_PROPERTY_CAN_BE_DEFAULT: u32 = 0x64666C74;
pub const DEVICE_PROPERTY_CAN_BE_SYSTEM: u32 = 0x73666C74;
pub const DEVICE_PROPERTY_LATENCY: u32 = 0x6C746E63;
pub const DEVICE_PROPERTY_STREAMS: u32 = 0x73746D23;
pub const DEVICE_PROPERTY_CONTROLS: u32 = 0x63746C23;
pub const DEVICE_PROPERTY_SAFETY_OFFSET: u32 = 0x73616674;
pub const DEVICE_PROPERTY_NOMINAL_SAMPLE_RATE: u32 = 0x6E737274;
pub const DEVICE_PROPERTY_AVAILABLE_SAMPLE_RATES: u32 = 0x6E737223;
pub const DEVICE_PROPERTY_ICON: u32 = 0x69636F6E;
pub const DEVICE_PROPERTY_HIDDEN: u32 = 0x68696468;
pub const DEVICE_PROPERTY_PREFERRED_CHANNELS: u32 = 0x64636832;
pub const DEVICE_PROPERTY_ZERO_TIME_STAMP_PERIOD: u32 = 0x72747023;

// Stream property selectors.
pub const STREAM_PROPERTY_ACTIVE: u32 = 0x73616374;
pub const STREAM_PROPERTY_DIRECTION: u32 = 0x73646972;
pub const STREAM_PROPERTY_TERMINAL_TYPE: u32 = 0x7465726D;
pub const STREAM_PROPERTY_START_CHANNEL: u32 = 0x73636E6C;
pub const STREAM_PROPERTY_LATENCY: u32 = 0x6C746E63;
pub const STREAM_PROPERTY_VIRTUAL_FORMAT: u32 = 0x73666D74;
pub const STREAM_PROPERTY_PHYSICAL_FORMAT: u32 = 0x70667420;
pub const STREAM_PROPERTY_AVAILABLE_VIRTUAL_FORMATS: u32 = 0x73666D61;
pub const STREAM_PROPERTY_AVAILABLE_PHYSICAL_FORMATS: u32 = 0x70667461;

// Level control property selectors.
pub const LEVEL_CONTROL_PROPERTY_SCALAR_VALUE: u32 = 0x6C637376;
pub const LEVEL_CONTROL_PROPERTY_DECIBEL_VALUE: u32 = 0x6C636476;
pub const LEVEL_CONTROL_PROPERTY_DECIBEL_RANGE: u32 = 0x6C636472;
pub const LEVEL_CONTROL_PROPERTY_CONVERT_SCALAR_TO_DB: u32 = 0x6C637364;
pub const LEVEL_CONTROL_PROPERTY_CONVERT_DB_TO_SCALAR: u32 = 0x6C636473;

// Property scope / element.
pub const SCOPE_GLOBAL: u32 = 0x676C6F62;
pub const SCOPE_INPUT: u32 = 0x696E7074;
pub const SCOPE_OUTPUT: u32 = 0x6F757470;
pub const ELEMENT_MAIN: u32 = 0;

// Object class IDs.
pub const CLASS_OBJECT: u32 = 0x616F626A;
pub const CLASS_PLUGIN: u32 = 0x61706C67;
pub const CLASS_DEVICE: u32 = 0x61646576;
pub const CLASS_STREAM: u32 = 0x61737472;
pub const CLASS_CONTROL: u32 = 0x6163746C;
pub const CLASS_LEVEL_CONTROL: u32 = 0x6C63746C;
pub const CLASS_VOLUME_CONTROL: u32 = 0x766C6374;

/// 'vrtl': virtual transport type.
pub const TRANSPORT_TYPE_VIRTUAL: u32 = 0x7672746C;

/// 'micr': microphone input terminal.
pub const INPUT_TERMINAL_MICROPHONE: u32 = 0x6D696372;

/// 'spkr': speaker output terminal.
pub const OUTPUT_TERMINAL_SPEAKER: u32 = 0x73706B72;

/// The supported sample rates, as the IEEE-754 bit patterns of the f64
/// values 44100.0, 48000.0, 96000.0 and 192000.0 Hz.
pub const SUPPORTED_SAMPLE_RATE_BITS: [u64; 4] = [
    0x40e5888000000000,
    0x40e7700000000000,
    0x40f7700000000000,
    0x4107700000000000,
];

/// The supported sample rates in Hz, in the order of
/// `SUPPORTED_SAMPLE_RATE_BITS`.
pub const SUPPORTED_SAMPLE_RATES_HZ: [u32; 4] = [44100, 48000, 96000, 192000];

/// Bit pattern of the f64 default sample rate 48000.0 Hz.
pub const DEFAULT_SAMPLE_RATE_BITS: u64 = 0x40e7700000000000;

pub const DEFAULT_CHANNELS: u32 = 2;

pub const DEFAULT_BITS_PER_CHANNEL: u32 = 32;

} // verus!
