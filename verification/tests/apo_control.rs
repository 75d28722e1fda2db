use phaselith::apo_control::{
    ApoControl, BlockRoute, CallInterval, DpcTracker, StoredPrimeAudio, UnlockRecord, CLICK_GATE_DELAY,
    PRIME_FRAMES, PRIME_STORE_INTERVAL, STARTUP_GUARD_FRAMES,
};

fn locked(frame_size: usize) -> ApoControl {
    let mut c = ApoControl::new();
    c.initialize(48000, 2);
    c.lock_for_process(frame_size, None, None, None, false);
    c
}

#[test]
fn inactive_instance_passes_through() {
    let mut c = ApoControl::new();
    let before = c;
    let e = c.begin_block(960, 960, Some((true, 7)));
    assert_eq!(e.route, BlockRoute::Passthrough);
    assert!(!e.reload_config);
    assert_eq!(c, before);

    let mut b = locked(480);
    b.set_bypass_mode();
    assert_eq!(b.begin_block(960, 960, Some((true, 1))).route, BlockRoute::Passthrough);

    let mut u = locked(480);
    assert_eq!(u.unlock_for_process(), (48000, 480));
    assert_eq!(u.begin_block(960, 960, Some((true, 1))).route, BlockRoute::Passthrough);
}

#[test]
fn empty_block_does_nothing() {
    let mut c = locked(480);
    assert_eq!(c.begin_block(0, 960, Some((true, 1))).route, BlockRoute::Nothing);
    assert_eq!(c.begin_block(960, 0, Some((true, 1))).route, BlockRoute::Nothing);
}

#[test]
fn processed_block_counts_and_transitions() {
    let mut c = locked(480);
    // Lock starts with prev_enabled = true.
    let e = c.begin_block(960, 960, Some((true, 0)));
    assert_eq!(e.route, BlockRoute::Process { frames: 480, enabled: true, transitioning: false });
    assert!(!e.reload_config);
    assert_eq!(c.process_frame_count, 1);
    let e = c.begin_block(960, 960, Some((false, 0)));
    assert_eq!(e.route, BlockRoute::Process { frames: 480, enabled: false, transitioning: true });
    // Oversized blocks pass through but still note the configuration.
    let e = c.begin_block(2000, 2000, Some((false, 5)));
    assert_eq!(e.route, BlockRoute::Passthrough);
    assert!(e.reload_config);
    assert_eq!(c.last_config_version, 5);
}

#[test]
fn config_reloads_once_per_version() {
    let mut c = locked(480);
    assert!(c.begin_block(960, 960, Some((true, 3))).reload_config);
    assert!(!c.begin_block(960, 960, Some((true, 3))).reload_config);
    assert!(c.begin_block(960, 960, Some((true, 4))).reload_config);
    // Without shared memory the version reads as 0 and the effect as disabled.
    let e = c.begin_block(960, 960, None);
    assert!(e.reload_config);
    assert_eq!(e.route, BlockRoute::Process { frames: 480, enabled: false, transitioning: true });
}

#[test]
fn lock_plan_decisions() {
    let mut c = ApoControl::new();
    c.initialize(48000, 2);
    let plan = c.lock_for_process(
        480,
        Some((48000, 480)),
        None,
        Some(UnlockRecord { elapsed_ms: 100, sample_rate: 48000, frame_size: 480 }),
        true,
    );
    assert!(plan.reuse_engines);
    assert!(!plan.prime_with_stored_audio);
    assert!(plan.rapid_rebuild);
    assert!(plan.seed_last_output);
    assert_eq!(c.process_frame_count, CLICK_GATE_DELAY + 1);
    assert!(!c.click_gate_armed);

    let mut d = ApoControl::new();
    let plan = d.lock_for_process(
        512,
        Some((48000, 480)),
        None,
        Some(UnlockRecord { elapsed_ms: 500, sample_rate: 48000, frame_size: 512 }),
        true,
    );
    assert!(!plan.reuse_engines);
    assert!(!plan.rapid_rebuild);
    assert!(d.click_gate_armed);
    assert_eq!(d.process_frame_count, 0);
    assert_eq!(d.scratch_frames, 512);
}

#[test]
fn prime_store_keeps_latest_blocks() {
    let mut store = StoredPrimeAudio::new(48000, 2);
    assert!(!store.can_prime(48000, 2));
    for k in 0..(PRIME_FRAMES as u32 + 3) {
        store.store_block(&[k, 100 + k, k, 100 + k], 2, 2);
    }
    assert!(store.can_prime(48000, 2));
    assert!(!store.can_prime(44100, 2));
    // Oldest first: the first three blocks were replaced.
    let (l, r) = store.block_at(0);
    assert_eq!(l, &vec![3, 3]);
    assert_eq!(r, &vec![103, 103]);
    let (l, _) = store.block_at(PRIME_FRAMES - 1);
    assert_eq!(l, &vec![PRIME_FRAMES as u32 + 2, PRIME_FRAMES as u32 + 2]);
}

#[test]
fn prime_store_mono_stores_silent_right() {
    let mut store = StoredPrimeAudio::new(48000, 3);
    store.store_block(&[1, 2, 3], 1, 3);
    let (l, r) = store.block_at(0);
    assert_eq!(l, &vec![1, 2, 3]);
    assert_eq!(r, &vec![0, 0, 0]);
}

#[test]
fn dpc_tracker_enters_and_leaves_high_latency() {
    let mut t = DpcTracker::new();
    let spike = CallInterval { exceeds_normal: true, exceeds_high_latency: false };
    let calm = CallInterval { exceeds_normal: false, exceeds_high_latency: false };
    assert!(!t.on_block(None, 10));
    // Spikes in the first frames after lock are ignored.
    assert!(!t.on_block(Some(spike), 3));
    assert!(t.on_block(Some(spike), 4));
    assert!(t.on_block(Some(spike), 5));
    assert!(!t.high_latency_mode);
    assert!(t.on_block(Some(spike), 6));
    assert!(t.high_latency_mode);
    // In high-latency mode only severe spikes mute.
    assert!(!t.on_block(Some(spike), 7));
    for f in 0..6000u64 {
        t.on_block(Some(calm), 8 + f);
    }
    assert!(!t.high_latency_mode);
}

#[test]
fn gating_and_recovery() {
    let mut c = locked(480);
    assert!(c.in_startup_guard());
    c.note_zero_block();
    assert!(c.take_post_zero_crossfade());
    assert!(!c.take_post_zero_crossfade());
    c.on_click_detected();
    assert!(c.gap_mute_active);
    assert!(!c.recovery_complete());
    for _ in 0..CLICK_GATE_DELAY {
        c.begin_block(960, 960, Some((true, 0)));
    }
    assert!(c.recovery_complete());
    assert!(!c.gap_mute_active);
    assert!(c.click_gate_active(true, false));
    assert!(!c.click_gate_active(true, true));
    assert!(!c.click_gate_active(false, false));
    assert_eq!(STARTUP_GUARD_FRAMES, 8);
}

#[test]
fn spike_mute_restarts_recovery() {
    let mut c = locked(480);
    c.observe_interval(None);
    c.begin_block(960, 960, Some((true, 0)));
    assert!(!c.take_spike_mute());
    c.dpc_spike_recovery = true;
    assert!(c.take_spike_mute());
    assert!(c.gap_mute_active);
    assert_eq!(c.process_frame_count, 0);
    assert!(!c.take_spike_mute());
}

#[test]
fn prime_store_cadence() {
    let mut c = locked(480);
    assert!(!c.should_store_prime());
    for _ in 0..PRIME_STORE_INTERVAL {
        c.begin_block(960, 960, Some((true, 0)));
    }
    assert!(c.should_store_prime());
    c.begin_block(960, 960, Some((true, 0)));
    assert!(!c.should_store_prime());
}

#[test]
fn short_output_passes_through() {
    let mut mono = ApoControl::new();
    mono.initialize(48000, 1);
    mono.lock_for_process(480, None, None, None, false);
    let e = mono.begin_block(480, 100, Some((true, 0)));
    assert_eq!(e.route, BlockRoute::Passthrough);
    // The block is still counted.
    assert_eq!(mono.process_frame_count, 1);
    let mut stereo = locked(480);
    assert_eq!(stereo.begin_block(960, 959, Some((true, 0))).route, BlockRoute::Passthrough);
    assert_eq!(
        stereo.begin_block(960, 960, Some((true, 0))).route,
        BlockRoute::Process { frames: 480, enabled: true, transitioning: false }
    );
}

#[test]
fn enter_block_copies_on_passthrough() {
    // Inactive instance: the shorter length is copied, the rest kept, no state change.
    let mut c = ApoControl::new();
    let before = c;
    let input = vec![1u32, 2, 3, 4];
    let mut output = vec![9u32; 6];
    let e = c.enter_block(&input, &mut output, Some((true, 3)));
    assert_eq!(e.route, BlockRoute::Passthrough);
    assert!(!e.reload_config);
    assert_eq!(output, vec![1, 2, 3, 4, 9, 9]);
    assert_eq!(c, before);
    // Empty block: output untouched.
    let mut output = vec![9u32; 3];
    assert_eq!(c.enter_block(&[], &mut output, None).route, BlockRoute::Nothing);
    assert_eq!(output, vec![9, 9, 9]);
    // Oversized block on a locked instance: copied dry, not counted.
    let mut l = locked(2);
    let input = vec![5u32; 8];
    let mut output = vec![0u32; 6];
    assert_eq!(l.enter_block(&input, &mut output, Some((true, 0))).route, BlockRoute::Passthrough);
    assert_eq!(output, vec![5u32; 6]);
    assert_eq!(l.process_frame_count, 0);
    // A processed block leaves the output to the engines.
    let mut output = vec![0u32; 4];
    let e = l.enter_block(&[1, 2, 3, 4], &mut output, Some((true, 0)));
    assert_eq!(e.route, BlockRoute::Process { frames: 2, enabled: true, transitioning: false });
    assert_eq!(output, vec![0u32; 4]);
}
