use phaselith::audio_dump::{init, wav_bytes, AudioDump, DumpState, RecordAction, CHECK_INTERVAL, MAX_SAMPLES};

#[test]
fn dump_checks_trigger_every_interval() {
    let mut dump = AudioDump::new();
    let mut checks = Vec::new();
    for call in 0..(2 * CHECK_INTERVAL + 1) {
        if let RecordAction::CheckTrigger = dump.record(&[], &[]) {
            checks.push(call);
        }
    }
    assert_eq!(checks, vec![0, CHECK_INTERVAL, 2 * CHECK_INTERVAL]);
    assert_eq!(dump.state(), DumpState::Idle);
}

#[test]
fn dump_init_sets_format() {
    let mut dump = AudioDump::new();
    assert_eq!((dump.sample_rate(), dump.channels()), (48000, 2));
    init(&mut dump, 44100, 1);
    assert_eq!((dump.sample_rate(), dump.channels()), (44100, 1));
    assert_eq!(dump.state(), DumpState::Idle);
}

#[test]
fn dump_records_until_full() {
    let mut dump = AudioDump::new();
    init(&mut dump, 48000, 2);
    assert!(matches!(dump.record(&[], &[]), RecordAction::CheckTrigger));
    dump.trigger_found();
    assert_eq!(dump.state(), DumpState::Recording);

    let block_in: Vec<u32> = (0..960u32).collect();
    let block_out: Vec<u32> = (0..960u32).map(|x| x + 1).collect();
    let blocks = MAX_SAMPLES / 960;
    for _ in 0..blocks - 1 {
        assert!(matches!(dump.record(&block_in, &block_out), RecordAction::Nothing));
    }
    assert_eq!(dump.captured(), (blocks - 1) * 960);
    // The last block fills the capture exactly: both buffers are handed out.
    match dump.record(&block_in, &block_out) {
        RecordAction::WriteFiles(take) => {
            assert_eq!(take.before.len(), MAX_SAMPLES);
            assert_eq!(take.after.len(), MAX_SAMPLES);
            assert_eq!(&take.before[..960], &block_in[..]);
            assert_eq!(&take.after[MAX_SAMPLES - 960..], &block_out[..]);
            assert_eq!(take.sample_rate, 48000);
            assert_eq!(take.channels, 2);
        }
        _ => panic!("capture should be complete"),
    }
    assert_eq!(dump.state(), DumpState::Writing);
    assert_eq!(dump.captured(), 0);
    // While writing, blocks are ignored.
    assert!(matches!(dump.record(&block_in, &block_out), RecordAction::Nothing));
    dump.finish_writing();
    assert_eq!(dump.state(), DumpState::Idle);
}

#[test]
fn dump_copies_shorter_of_both_blocks() {
    let mut dump = AudioDump::new();
    dump.record(&[], &[]);
    dump.trigger_found();
    dump.record(&[1, 2, 3, 4], &[5, 6]);
    assert_eq!(dump.captured(), 2);
    // A trigger while recording changes nothing.
    dump.trigger_found();
    assert_eq!(dump.captured(), 2);
}

#[test]
fn dump_caps_at_limit() {
    let mut dump = AudioDump::new();
    dump.record(&[], &[]);
    dump.trigger_found();
    let big = vec![7u32; MAX_SAMPLES - 10];
    assert!(matches!(dump.record(&big, &big), RecordAction::Nothing));
    let more = vec![8u32; 100];
    match dump.record(&more, &more) {
        RecordAction::WriteFiles(take) => {
            assert_eq!(take.before.len(), MAX_SAMPLES);
            assert_eq!(take.before[MAX_SAMPLES - 1], 8);
            assert_eq!(take.before[MAX_SAMPLES - 11], 7);
        }
        _ => panic!("capture should be complete"),
    }
}

#[test]
fn wav_header_bytes() {
    let bytes = wav_bytes(&[], 48000, 2);
    let mut expected: Vec<u8> = Vec::new();
    expected.extend_from_slice(b"RIFF");
    expected.extend_from_slice(&36u32.to_le_bytes());
    expected.extend_from_slice(b"WAVE");
    expected.extend_from_slice(b"fmt ");
    expected.extend_from_slice(&16u32.to_le_bytes());
    expected.extend_from_slice(&3u16.to_le_bytes());
    expected.extend_from_slice(&2u16.to_le_bytes());
    expected.extend_from_slice(&48000u32.to_le_bytes());
    expected.extend_from_slice(&384000u32.to_le_bytes());
    expected.extend_from_slice(&8u16.to_le_bytes());
    expected.extend_from_slice(&32u16.to_le_bytes());
    expected.extend_from_slice(b"data");
    expected.extend_from_slice(&0u32.to_le_bytes());
    assert_eq!(bytes.len(), 44);
    assert_eq!(bytes, expected);
}

#[test]
fn wav_sample_bytes() {
    let samples = [0.5f32.to_bits(), (-1.0f32).to_bits(), 0.25f32.to_bits()];
    let bytes = wav_bytes(&samples, 44100, 1);
    assert_eq!(bytes.len(), 44 + 12);
    assert_eq!(&bytes[4..8], &(36u32 + 12).to_le_bytes());
    assert_eq!(&bytes[28..32], &(44100u32 * 4).to_le_bytes());
    assert_eq!(&bytes[32..34], &4u16.to_le_bytes());
    assert_eq!(&bytes[40..44], &12u32.to_le_bytes());
    assert_eq!(&bytes[44..48], &0.5f32.to_le_bytes());
    assert_eq!(&bytes[48..52], &(-1.0f32).to_le_bytes());
    assert_eq!(&bytes[52..56], &0.25f32.to_le_bytes());
}
