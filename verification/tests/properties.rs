use phaselith::constants::{
    AUDIO_FORMAT_LINEAR_PCM, CLASS_DEVICE, CLASS_OBJECT, DEVICE_OBJECT_ID, DEVICE_PROPERTY_AVAILABLE_SAMPLE_RATES,
    DEVICE_PROPERTY_NOMINAL_SAMPLE_RATE, DEVICE_PROPERTY_STREAMS, LEVEL_CONTROL_PROPERTY_DECIBEL_VALUE,
    LEVEL_CONTROL_PROPERTY_SCALAR_VALUE, PLUGIN_OBJECT_ID, PLUGIN_PROPERTY_DEVICE_LIST, PROPERTY_BASE_CLASS,
    PROPERTY_CLASS, PROPERTY_NAME, SCOPE_GLOBAL, STREAM_INPUT_OBJECT_ID, STREAM_OUTPUT_OBJECT_ID,
    STREAM_PROPERTY_DIRECTION, STREAM_PROPERTY_VIRTUAL_FORMAT, VOLUME_CONTROL_OBJECT_ID,
};
use phaselith::object_model::ObjectStore;
use phaselith::plugin_interface::AudioObjectPropertyAddress;
use phaselith::properties::{
    get_property_data, get_property_data_size, has_property, is_property_settable, set_property_data,
    supported_rate_hz, AudioStreamBasicDescription, PropertyReadings, PropertyWrite, ASBD_SIZE,
};

fn addr(selector: u32) -> AudioObjectPropertyAddress {
    AudioObjectPropertyAddress { selector, scope: SCOPE_GLOBAL, element: 0 }
}

fn readings() -> PropertyReadings {
    PropertyReadings {
        sample_rate_bits: 48000.0f64.to_bits(),
        sample_rate_frames: 48000,
        io_running: false,
        volume_decibel_bits: 0.0f32.to_bits(),
    }
}

#[test]
fn asbd_stereo_float32() {
    let asbd = AudioStreamBasicDescription::stereo_float32(48000.0f64.to_bits());
    assert_eq!(f64::from_bits(asbd.sample_rate_bits), 48000.0);
    assert_eq!(asbd.format_id, AUDIO_FORMAT_LINEAR_PCM);
    assert_eq!(asbd.channels_per_frame, 2);
    assert_eq!(asbd.bits_per_channel, 32);
    assert_eq!(asbd.bytes_per_frame, 8); // 2 channels * 4 bytes
    assert_eq!(asbd.frames_per_packet, 1);
}

#[test]
fn asbd_bytes_layout() {
    let asbd = AudioStreamBasicDescription::stereo_float32(44100.0f64.to_bits());
    let b = asbd.to_bytes();
    assert_eq!(b.len() as u32, ASBD_SIZE);
    assert_eq!(&b[0..8], &44100.0f64.to_le_bytes());
    assert_eq!(&b[8..12], &AUDIO_FORMAT_LINEAR_PCM.to_le_bytes());
    assert_eq!(&b[12..16], &9u32.to_le_bytes()); // float | packed
    assert_eq!(&b[16..20], &8u32.to_le_bytes());
    assert_eq!(&b[36..40], &0u32.to_le_bytes());
}

#[test]
fn has_property_follows_size() {
    let store = ObjectStore::new();
    for object in [PLUGIN_OBJECT_ID, DEVICE_OBJECT_ID, STREAM_INPUT_OBJECT_ID, VOLUME_CONTROL_OBJECT_ID, 999] {
        for selector in [PROPERTY_CLASS, PROPERTY_NAME, DEVICE_PROPERTY_STREAMS, STREAM_PROPERTY_DIRECTION, 0x1234_5678] {
            let a = addr(selector);
            assert_eq!(has_property(&store, object, &a), get_property_data_size(&store, object, &a).is_some());
        }
    }
}

#[test]
fn property_sizes() {
    let store = ObjectStore::new();
    assert_eq!(get_property_data_size(&store, PLUGIN_OBJECT_ID, &addr(PLUGIN_PROPERTY_DEVICE_LIST)), Some(4));
    assert_eq!(get_property_data_size(&store, DEVICE_OBJECT_ID, &addr(DEVICE_PROPERTY_STREAMS)), Some(8));
    assert_eq!(get_property_data_size(&store, DEVICE_OBJECT_ID, &addr(DEVICE_PROPERTY_AVAILABLE_SAMPLE_RATES)), Some(64));
    assert_eq!(get_property_data_size(&store, STREAM_OUTPUT_OBJECT_ID, &addr(STREAM_PROPERTY_VIRTUAL_FORMAT)), Some(40));
    assert_eq!(get_property_data_size(&store, 999, &addr(PROPERTY_CLASS)), None);
}

#[test]
fn settable_properties() {
    let store = ObjectStore::new();
    assert!(is_property_settable(&store, DEVICE_OBJECT_ID, &addr(DEVICE_PROPERTY_NOMINAL_SAMPLE_RATE)));
    assert!(is_property_settable(&store, VOLUME_CONTROL_OBJECT_ID, &addr(LEVEL_CONTROL_PROPERTY_SCALAR_VALUE)));
    assert!(is_property_settable(&store, VOLUME_CONTROL_OBJECT_ID, &addr(LEVEL_CONTROL_PROPERTY_DECIBEL_VALUE)));
    assert!(!is_property_settable(&store, DEVICE_OBJECT_ID, &addr(PROPERTY_CLASS)));
    assert!(!is_property_settable(&store, PLUGIN_OBJECT_ID, &addr(DEVICE_PROPERTY_NOMINAL_SAMPLE_RATE)));
}

#[test]
fn property_data_values() {
    let store = ObjectStore::new();
    let r = readings();
    let d = get_property_data(&store, DEVICE_OBJECT_ID, &addr(PROPERTY_CLASS), &r, 4).unwrap();
    assert_eq!(d, CLASS_DEVICE.to_le_bytes().to_vec());
    let d = get_property_data(&store, DEVICE_OBJECT_ID, &addr(PROPERTY_BASE_CLASS), &r, 64).unwrap();
    assert_eq!(d, CLASS_OBJECT.to_le_bytes().to_vec());
    let d = get_property_data(&store, DEVICE_OBJECT_ID, &addr(DEVICE_PROPERTY_STREAMS), &r, 8).unwrap();
    let mut expected = STREAM_INPUT_OBJECT_ID.to_le_bytes().to_vec();
    expected.extend_from_slice(&STREAM_OUTPUT_OBJECT_ID.to_le_bytes());
    assert_eq!(d, expected);
    let d = get_property_data(&store, DEVICE_OBJECT_ID, &addr(DEVICE_PROPERTY_NOMINAL_SAMPLE_RATE), &r, 8).unwrap();
    assert_eq!(d, 48000.0f64.to_le_bytes().to_vec());
    let d = get_property_data(&store, VOLUME_CONTROL_OBJECT_ID, &addr(LEVEL_CONTROL_PROPERTY_SCALAR_VALUE), &r, 4).unwrap();
    assert_eq!(d, 1.0f32.to_le_bytes().to_vec());
    let d = get_property_data(&store, STREAM_INPUT_OBJECT_ID, &addr(STREAM_PROPERTY_DIRECTION), &r, 4).unwrap();
    assert_eq!(d, 1u32.to_le_bytes().to_vec());
    let d = get_property_data(&store, STREAM_OUTPUT_OBJECT_ID, &addr(STREAM_PROPERTY_DIRECTION), &r, 4).unwrap();
    assert_eq!(d, 0u32.to_le_bytes().to_vec());
}

#[test]
fn property_data_too_small_or_unknown() {
    let store = ObjectStore::new();
    let r = readings();
    assert_eq!(get_property_data(&store, DEVICE_OBJECT_ID, &addr(DEVICE_PROPERTY_STREAMS), &r, 7), None);
    assert_eq!(get_property_data(&store, 999, &addr(PROPERTY_CLASS), &r, 64), None);
    assert_eq!(get_property_data(&store, DEVICE_OBJECT_ID, &addr(0x1234_5678), &r, 64), None);
}

#[test]
fn set_sample_rate_and_volume() {
    let store = ObjectStore::new();
    let w = set_property_data(&store, DEVICE_OBJECT_ID, &addr(DEVICE_PROPERTY_NOMINAL_SAMPLE_RATE), &96000.0f64.to_le_bytes());
    assert_eq!(w, PropertyWrite::SampleRate { rate_bits: 96000.0f64.to_bits(), rate_hz: 96000 });
    let w = set_property_data(&store, DEVICE_OBJECT_ID, &addr(DEVICE_PROPERTY_NOMINAL_SAMPLE_RATE), &22050.0f64.to_le_bytes());
    assert_eq!(w, PropertyWrite::Rejected);
    let w = set_property_data(&store, DEVICE_OBJECT_ID, &addr(DEVICE_PROPERTY_NOMINAL_SAMPLE_RATE), &[0u8; 4]);
    assert_eq!(w, PropertyWrite::Rejected);
    let w = set_property_data(&store, VOLUME_CONTROL_OBJECT_ID, &addr(LEVEL_CONTROL_PROPERTY_SCALAR_VALUE), &0.5f32.to_le_bytes());
    assert_eq!(w, PropertyWrite::VolumeScalar { scalar_bits: 0.5f32.to_bits() });
    let w = set_property_data(&store, PLUGIN_OBJECT_ID, &addr(PROPERTY_CLASS), &[0u8; 8]);
    assert_eq!(w, PropertyWrite::Rejected);
}

#[test]
fn supported_rates_in_hz() {
    assert_eq!(supported_rate_hz(44100.0f64.to_bits()), Some(44100));
    assert_eq!(supported_rate_hz(48000.0f64.to_bits()), Some(48000));
    assert_eq!(supported_rate_hz(96000.0f64.to_bits()), Some(96000));
    assert_eq!(supported_rate_hz(192000.0f64.to_bits()), Some(192000));
    assert_eq!(supported_rate_hz(48000.5f64.to_bits()), None);
}

#[test]
fn property_data_length_matches_reported_size() {
    let store = ObjectStore::new();
    let r = readings();
    let cases = [
        (PLUGIN_OBJECT_ID, PROPERTY_CLASS),
        (PLUGIN_OBJECT_ID, PLUGIN_PROPERTY_DEVICE_LIST),
        (DEVICE_OBJECT_ID, DEVICE_PROPERTY_STREAMS),
        (DEVICE_OBJECT_ID, DEVICE_PROPERTY_NOMINAL_SAMPLE_RATE),
        (DEVICE_OBJECT_ID, DEVICE_PROPERTY_AVAILABLE_SAMPLE_RATES),
        (STREAM_INPUT_OBJECT_ID, STREAM_PROPERTY_VIRTUAL_FORMAT),
        (VOLUME_CONTROL_OBJECT_ID, LEVEL_CONTROL_PROPERTY_SCALAR_VALUE),
    ];
    for (object, selector) in cases {
        let a = addr(selector);
        let size = get_property_data_size(&store, object, &a).unwrap();
        let data = get_property_data(&store, object, &a, &r, 1024).unwrap();
        assert_eq!(data.len() as u32, size);
    }
}

#[test]
fn settable_properties_exist_and_accept_writes() {
    let store = ObjectStore::new();
    let rate = addr(DEVICE_PROPERTY_NOMINAL_SAMPLE_RATE);
    assert!(has_property(&store, DEVICE_OBJECT_ID, &rate));
    let volume = addr(LEVEL_CONTROL_PROPERTY_SCALAR_VALUE);
    assert!(has_property(&store, VOLUME_CONTROL_OBJECT_ID, &volume));
    // A written rate reads back.
    let w = set_property_data(&store, DEVICE_OBJECT_ID, &rate, &44100.0f64.to_le_bytes());
    if let PropertyWrite::SampleRate { rate_bits, .. } = w {
        let mut r = readings();
        r.sample_rate_bits = rate_bits;
        let d = get_property_data(&store, DEVICE_OBJECT_ID, &rate, &r, 8).unwrap();
        assert_eq!(d, 44100.0f64.to_le_bytes().to_vec());
    } else {
        panic!("rate write should be accepted");
    }
}
