use phaselith::config::{QualityMode, SynthesisMode};
use phaselith::frame::{FrameClock, FrameParams};

#[test]
fn frame_params_light() {
    let fp = FrameParams::new(128, 48000, QualityMode::Light);
    assert_eq!(fp.core_fft_size, 512);
    assert_eq!(fp.hop_size, 128);
    assert_eq!(fp.blocks_per_hop(), 1);
    assert_eq!(fp.hops_per_block(), 1);
}

#[test]
fn frame_params_large_block() {
    // APO-style: 480-sample block, Standard mode (hop=256)
    let fp = FrameParams::new(480, 48000, QualityMode::Standard);
    assert_eq!(fp.blocks_per_hop(), 0); // 256/480 = 0
    assert_eq!(fp.hops_per_block(), 1); // 480/256 = 1
}

#[test]
fn frame_clock_accumulates() {
    let mut clock = FrameClock::new(256);

    // 128 samples → not enough for one hop
    assert_eq!(clock.advance(128), 0);
    assert_eq!(clock.pending_samples(), 128);

    // 128 more → exactly one hop
    assert_eq!(clock.advance(128), 1);
    assert_eq!(clock.pending_samples(), 0);
    assert_eq!(clock.frame_count(), 1);
}

#[test]
fn frame_clock_multiple_hops() {
    let mut clock = FrameClock::new(128);
    // 512 samples at once → 4 hops
    assert_eq!(clock.advance(512), 4);
    assert_eq!(clock.frame_count(), 4);
    assert_eq!(clock.pending_samples(), 0);
}

#[test]
fn frame_clock_partial_accumulation() {
    let mut clock = FrameClock::new(256);
    assert_eq!(clock.advance(100), 0);
    assert_eq!(clock.advance(100), 0);
    assert_eq!(clock.advance(100), 1); // 300 total, one hop at 256, 44 remaining
    assert_eq!(clock.pending_samples(), 44);
}

#[test]
fn frame_clock_reset() {
    let mut clock = FrameClock::new(256);
    clock.advance(512);
    clock.reset();
    assert_eq!(clock.frame_count(), 0);
    assert_eq!(clock.pending_samples(), 0);
}

#[test]
fn synthesis_mode_default_is_legacy() {
    assert_eq!(SynthesisMode::default(), SynthesisMode::LegacyAdditive);
}

#[test]
fn frame_params_standard_integers() {
    let fp = FrameParams::new(128, 48000, QualityMode::Standard);
    assert_eq!(fp.core_fft_size, 1024);
    assert_eq!(fp.hop_size, 256);
    assert_eq!(fp.blocks_per_hop(), 2);
    assert_eq!(fp.hops_per_block(), 0);
    assert_eq!(fp.core_bins(), 513);
    assert_eq!(fp.micro_fft_size, 256);
    assert_eq!(fp.air_fft_size, 2048);
    assert_eq!(fp.sample_rate, 48000);
    assert_eq!(FrameParams::default(), fp);
}

#[test]
fn frame_params_zero_block_and_ultra() {
    let fp = FrameParams::new(0, 44100, QualityMode::Ultra);
    assert_eq!(fp.blocks_per_hop(), 0);
    assert_eq!(fp.hops_per_block(), 0);
    assert_eq!(fp.core_bins(), 1025);
}

#[test]
fn frame_clock_split_feeds_match_one_feed() {
    // Feeding a+b samples in two calls gives the same hops and state as one call.
    let mut split = FrameClock::new(256);
    let h1 = split.advance(300);
    let h2 = split.advance(700);
    let mut whole = FrameClock::new(256);
    let h = whole.advance(1000);
    assert_eq!(h1 + h2, h);
    assert_eq!(split.frame_count(), whole.frame_count());
    assert_eq!(split.pending_samples(), whole.pending_samples());
    // Samples are conserved: hops * hop + pending == total fed.
    assert_eq!(whole.frame_count() as usize * 256 + whole.pending_samples(), 1000);
}
