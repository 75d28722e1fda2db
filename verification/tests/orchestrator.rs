use phaselith::config::QualityMode;
use phaselith::orchestrator::{FrameOrchestrator, RING_SIZE};

fn bits(v: &[f32]) -> Vec<u32> {
    v.iter().map(|x| x.to_bits()).collect()
}

#[test]
fn orchestrator_init_creates_ring_buffer() {
    let mut m0 = FrameOrchestrator::new();
    m0.init(1024, 48000);
    assert!(m0.ring_len() != 0);
}

#[test]
fn orchestrator_writes_to_ring() {
    let mut m0 = FrameOrchestrator::new();
    m0.init(1024, 48000);

    let samples = bits(&[1.0, 2.0, 3.0, 4.0]);
    m0.process(&samples, QualityMode::Standard);

    assert_eq!(m0.total_samples_written(), 4);
}

#[test]
fn orchestrator_read_last() {
    let mut m0 = FrameOrchestrator::new();
    m0.init(1024, 48000);

    let samples: Vec<f32> = (1..=10).map(|x| x as f32).collect();
    m0.process(&bits(&samples), QualityMode::Standard);

    let mut output = vec![0u32; 4];
    let n = m0.read_last(&mut output, 4);
    assert_eq!(n, 4);
    assert_eq!(output, bits(&[7.0, 8.0, 9.0, 10.0]));
}

#[test]
fn orchestrator_ring_wraps() {
    let mut m0 = FrameOrchestrator::new();
    m0.init(1024, 48000);

    // Write more than ring size to force wrapping
    let ring_size = m0.ring_len();
    let big_block: Vec<f32> = (0..ring_size + 100).map(|x| x as f32).collect();
    m0.process(&bits(&big_block), QualityMode::Standard);

    // Should still be able to read the last samples correctly
    let mut output = vec![0u32; 4];
    let n = m0.read_last(&mut output, 4);
    assert_eq!(n, 4);
    let expected_last = (ring_size + 100 - 1) as f32;
    assert_eq!(output[3], expected_last.to_bits());
}

#[test]
fn orchestrator_reset_clears() {
    let mut m0 = FrameOrchestrator::new();
    m0.init(1024, 48000);

    let samples = bits(&[1.0, 2.0, 3.0]);
    m0.process(&samples, QualityMode::Standard);
    m0.reset();

    assert_eq!(m0.total_samples_written(), 0);
    assert_eq!(m0.write_position(), 0);
}

#[test]
fn orchestrator_publishes_hop_count() {
    let mut m0 = FrameOrchestrator::new();
    m0.init(128, 48000);

    // Default hop size = 256 (Standard mode)
    // First block of 128 → 0 hops
    let samples = vec![0u32; 128];
    let (hops, frame_index) = m0.process(&samples, QualityMode::Standard);
    assert_eq!(hops, 0);
    assert_eq!(frame_index, 0);

    // Second block of 128 → 1 hop (total 256 = 1 hop)
    let (hops, frame_index) = m0.process(&samples, QualityMode::Standard);
    assert_eq!(hops, 1);
    assert_eq!(frame_index, 1);
}

#[test]
fn orchestrator_large_block_multiple_hops() {
    let mut m0 = FrameOrchestrator::new();
    m0.init(1024, 48000);

    // 1024 samples at once → 4 hops (hop=256)
    let samples = vec![0u32; 1024];
    let (hops, frame_index) = m0.process(&samples, QualityMode::Standard);
    assert_eq!(hops, 4);
    assert_eq!(frame_index, 4);
}

#[test]
fn orchestrator_ring_size_and_name() {
    let mut m0 = FrameOrchestrator::new();
    assert_eq!(m0.ring_len(), 0);
    m0.init(1024, 48000);
    assert_eq!(m0.ring_len(), RING_SIZE);
    assert_eq!(RING_SIZE, 4096);
    assert_eq!(m0.name(), "M0:Orchestrator");
}

#[test]
fn orchestrator_read_last_limits() {
    let mut m0 = FrameOrchestrator::new();
    let mut out = vec![9u32; 3];
    // Before init the ring is empty: nothing is read.
    assert_eq!(m0.read_last(&mut out, 3), 0);
    assert_eq!(out, vec![9, 9, 9]);
    m0.init(1024, 48000);
    m0.process(&[5, 6, 7, 8], QualityMode::Light);
    // Limited by the output length; the front receives the newest samples.
    let mut out = vec![0u32; 2];
    assert_eq!(m0.read_last(&mut out, 10), 2);
    assert_eq!(out, vec![7, 8]);
    // Asking for zero reads nothing.
    assert_eq!(m0.read_last(&mut out, 0), 0);
    // Reading more than written yields the silent ring before it.
    let mut out = vec![1u32; 6];
    assert_eq!(m0.read_last(&mut out, 6), 6);
    assert_eq!(out, vec![0, 0, 5, 6, 7, 8]);
}

#[test]
fn orchestrator_read_back_after_write() {
    let mut m0 = FrameOrchestrator::new();
    m0.init(1024, 48000);
    let first: Vec<u32> = (0..5000u32).collect();
    m0.process(&first, QualityMode::Standard);
    let block: Vec<u32> = (100..200u32).collect();
    m0.process(&block, QualityMode::Standard);
    let mut out = vec![0u32; 100];
    assert_eq!(m0.read_last(&mut out, 100), 100);
    assert_eq!(out, block);
    assert_eq!(m0.total_samples_written(), 5100);
    assert_eq!(m0.write_position(), 5100 % 4096);
}

#[test]
fn orchestrator_counts_in_quality_hop() {
    let mut m0 = FrameOrchestrator::new();
    m0.init(128, 48000);
    // Light mode hops every 128 samples.
    let samples = vec![0u32; 128];
    assert_eq!(m0.process(&samples, QualityMode::Light), (1, 1));
    assert_eq!(m0.frame_clock().pending_samples(), 0);
    // Switching to Ultra (hop 512) keeps counting from the pending samples.
    assert_eq!(m0.process(&vec![0u32; 300], QualityMode::Ultra), (0, 1));
    assert_eq!(m0.process(&vec![0u32; 300], QualityMode::Ultra), (1, 2));
    assert_eq!(m0.frame_clock().pending_samples(), 88);
}
