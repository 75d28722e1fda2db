use phaselith::config::{QualityMode, SynthesisMode};

#[test]
fn quality_mode_fft_sizes() {
    assert_eq!(QualityMode::Light.core_fft_size(), 512);
    assert_eq!(QualityMode::Standard.core_fft_size(), 1024);
    assert_eq!(QualityMode::Ultra.core_fft_size(), 2048);
}

#[test]
fn quality_mode_hop_sizes() {
    assert_eq!(QualityMode::Light.hop_size(), 128);
    assert_eq!(QualityMode::Standard.hop_size(), 256);
    assert_eq!(QualityMode::Ultra.hop_size(), 512);
}

#[test]
fn quality_mode_reprojection_iters() {
    assert_eq!(QualityMode::Light.max_reprojection_iters(), 1);
    assert_eq!(QualityMode::Standard.max_reprojection_iters(), 2);
    assert_eq!(QualityMode::Ultra.max_reprojection_iters(), 3);
}

#[test]
fn quality_mode_fft_size_matches_core() {
    for q in [QualityMode::Light, QualityMode::Standard, QualityMode::Ultra] {
        assert_eq!(q.fft_size(), q.core_fft_size());
        assert_eq!(q.hop_size() * 4, q.core_fft_size());
    }
}

#[test]
fn synthesis_mode_codes() {
    assert_eq!(SynthesisMode::from_u32(0), SynthesisMode::LegacyAdditive);
    assert_eq!(SynthesisMode::from_u32(1), SynthesisMode::FftOlaPilot);
    assert_eq!(SynthesisMode::from_u32(2), SynthesisMode::FftOlaFull);
    assert_eq!(SynthesisMode::from_u32(3), SynthesisMode::LegacyAdditive);
    assert_eq!(SynthesisMode::from_u32(u32::MAX), SynthesisMode::LegacyAdditive);
    assert_eq!(SynthesisMode::FftOlaFull.to_u32(), 2);
}

#[test]
fn synthesis_mode_roundtrip() {
    for m in [SynthesisMode::LegacyAdditive, SynthesisMode::FftOlaPilot, SynthesisMode::FftOlaFull] {
        assert_eq!(SynthesisMode::from_u32(m.to_u32()), m);
    }
    for v in 0u32..3 {
        assert_eq!(SynthesisMode::from_u32(v).to_u32(), v);
    }
}
