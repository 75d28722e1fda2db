use phaselith::format_negotiate::{is_format_supported, suggest_format};

#[test]
fn supports_mono_stereo_float32() {
    assert!(is_format_supported(48000, 32, 1, true));
    assert!(is_format_supported(48000, 32, 2, true));
}

#[test]
fn rejects_multichannel() {
    assert!(!is_format_supported(48000, 32, 3, true));
    assert!(!is_format_supported(48000, 32, 6, true));
    assert!(!is_format_supported(48000, 32, 8, true));
}

#[test]
fn rejects_zero_channels() {
    assert!(!is_format_supported(48000, 32, 0, true));
}

#[test]
fn rejects_non_float() {
    assert!(!is_format_supported(48000, 32, 2, false));
    assert!(!is_format_supported(48000, 16, 2, true));
    assert!(!is_format_supported(48000, 24, 2, true));
}

#[test]
fn supports_all_sample_rates() {
    for sr in &[44100u32, 48000, 96000, 192000] {
        assert!(is_format_supported(*sr, 32, 2, true), "Should support {sr} Hz");
    }
}

#[test]
fn rejects_unsupported_sample_rates() {
    assert!(!is_format_supported(22050, 32, 2, true));
    assert!(!is_format_supported(32000, 32, 2, true));
    assert!(!is_format_supported(88200, 32, 2, true));
}

#[test]
fn suggest_format_clamps_channels_to_stereo() {
    let (_, _, ch) = suggest_format(48000, 32, 6);
    assert_eq!(ch, 2, "6 channels should be clamped to 2");

    let (_, _, ch) = suggest_format(48000, 32, 8);
    assert_eq!(ch, 2, "8 channels should be clamped to 2");
}

#[test]
fn suggest_format_preserves_mono_stereo() {
    let (_, _, ch) = suggest_format(48000, 32, 1);
    assert_eq!(ch, 1);
    let (_, _, ch) = suggest_format(48000, 32, 2);
    assert_eq!(ch, 2);
}

#[test]
fn suggest_format_snaps_sample_rate() {
    let (rate, _, _) = suggest_format(22050, 32, 2);
    assert_eq!(rate, 44100);

    let (rate, _, _) = suggest_format(48000, 32, 2);
    assert_eq!(rate, 48000);

    let (rate, _, _) = suggest_format(88200, 32, 2);
    assert_eq!(rate, 96000);

    let (rate, _, _) = suggest_format(384000, 32, 2);
    assert_eq!(rate, 192000);
}

#[test]
fn suggest_format_always_32bit() {
    let (_, bits, _) = suggest_format(48000, 16, 2);
    assert_eq!(bits, 32);
}

#[test]
fn suggest_format_zero_channels_become_mono() {
    let (_, _, ch) = suggest_format(48000, 32, 0);
    assert_eq!(ch, 1);
}

#[test]
fn suggest_format_snaps_between_rates() {
    // Midpoints and boundaries between the supported rates.
    assert_eq!(suggest_format(45500, 32, 2).0, 44100);
    assert_eq!(suggest_format(46050, 32, 2).0, 44100);
    assert_eq!(suggest_format(46051, 32, 2).0, 48000);
    assert_eq!(suggest_format(72000, 32, 2).0, 48000);
    assert_eq!(suggest_format(72001, 32, 2).0, 96000);
    assert_eq!(suggest_format(0, 32, 2).0, 44100);
    assert_eq!(suggest_format(144000, 32, 2).0, 96000);
    assert_eq!(suggest_format(144001, 32, 2).0, 192000);
}

#[test]
fn suggestion_is_always_supported() {
    for sr in [0u32, 1, 22050, 44100, 47000, 100000, 250000, u32::MAX] {
        for ch in [0u16, 1, 2, 3, 6, u16::MAX] {
            let (rate, bits, channels) = suggest_format(sr, 16, ch);
            assert!(is_format_supported(rate, bits, channels, true));
        }
    }
}

#[test]
fn supported_format_is_its_own_suggestion() {
    for sr in [44100u32, 48000, 96000, 192000] {
        for ch in [1u16, 2] {
            assert_eq!(suggest_format(sr, 32, ch), (sr, 32, ch));
        }
    }
}

#[test]
fn suggest_format_picks_nearest_rate() {
    let rates = [44100i64, 48000, 96000, 192000];
    for sr in [0u32, 30000, 45000, 45500, 46049, 46050, 46051, 50000, 71999, 72000, 72001, 120000, 144000, 144001, 400000, u32::MAX] {
        let r = suggest_format(sr, 32, 2).0 as i64;
        let d = (r - sr as i64).abs();
        for s in rates {
            assert!(d <= (s - sr as i64).abs(), "{sr} -> {r} but {s} is closer");
        }
    }
}
