use phaselith::io_engine::{
    deinterleave_stereo, interleave_stereo, is_buffer_clean, mix_plan, IoEngine, IoRoute, MixPlan, StartPlan,
    PRIME_FRAMES, WARMUP_FRAMES,
};

fn bits(v: &[f32]) -> Vec<u32> {
    v.iter().map(|x| x.to_bits()).collect()
}

#[test]
fn passthrough_when_not_started() {
    let mut engine = IoEngine::new();
    let input = bits(&vec![0.5f32; 960]); // stereo 480 frames
    let mut output = bits(&vec![0.0f32; 960]);
    engine.process(&input, &mut output, true);
    assert_eq!(output, input);
}

#[test]
fn stop_cleans_up() {
    let mut engine = IoEngine::new();
    engine.initialize(48000, 2);
    engine.start(480);
    assert!(engine.is_active());

    engine.stop();
    assert!(!engine.is_active());

    // After stop, passthrough
    let input = bits(&vec![0.1f32; 960]);
    let mut output = bits(&vec![0.0f32; 960]);
    engine.process(&input, &mut output, true);
    assert_eq!(output, input);
}

#[test]
fn bypass_mode_passthrough() {
    let mut engine = IoEngine::new();
    engine.initialize(48000, 2);
    engine.set_bypass_mode();

    let input = bits(&vec![0.7f32; 960]);
    let mut output = bits(&vec![0.0f32; 960]);
    engine.process(&input, &mut output, true);
    assert_eq!(output, input);
}

#[test]
fn empty_buffers_no_crash() {
    let mut engine = IoEngine::new();
    engine.initialize(48000, 2);
    engine.start(480);

    let input: Vec<u32> = vec![];
    let mut output: Vec<u32> = vec![];
    assert_eq!(engine.process(&input, &mut output, true), IoRoute::Nothing);
}

#[test]
fn oversized_buffer_passthrough() {
    let mut engine = IoEngine::new();
    engine.initialize(48000, 2);
    engine.start(480);

    // Buffer larger than frame_size → passthrough
    let input = bits(&vec![0.5f32; 2000]);
    let mut output = bits(&vec![0.0f32; 2000]);
    engine.process(&input, &mut output, true);
    assert_eq!(output, input);
}

#[test]
fn start_plan_and_routes() {
    let mut engine = IoEngine::new();
    engine.initialize(48000, 2);
    assert_eq!(engine.start(480), StartPlan { build_right: true, prime_frames: PRIME_FRAMES });
    let input = vec![1u32; 960];
    let mut output = vec![0u32; 960];
    let r = engine.process(&input, &mut output, true);
    assert_eq!(r, IoRoute::Stereo { frames: 480, enabled: true, transitioning: true, frame_index: 1 });
    // The engines' blocks leave the output to the DSP.
    assert_eq!(output, vec![0u32; 960]);
    let r = engine.process(&input, &mut output, true);
    assert_eq!(r, IoRoute::Stereo { frames: 480, enabled: true, transitioning: false, frame_index: 2 });

    let mut mono = IoEngine::new();
    mono.initialize(48000, 1);
    assert_eq!(mono.start(480), StartPlan { build_right: false, prime_frames: PRIME_FRAMES });
    let r = mono.process(&vec![0u32; 480], &mut vec![0u32; 480], false);
    assert_eq!(r, IoRoute::Mono { frames: 480, enabled: false, transitioning: false, frame_index: 1 });
}

#[test]
fn short_stereo_output_passes_through() {
    let mut engine = IoEngine::new();
    engine.start(480);
    let input = vec![3u32; 960];
    let mut output = vec![0u32; 500];
    assert_eq!(engine.process(&input, &mut output, true), IoRoute::Passthrough);
    assert_eq!(output, vec![3u32; 500]);
    // The block was counted before the size check.
    assert_eq!(engine.process_frame_count, 1);
}

#[test]
fn config_version_reloads_once() {
    let mut engine = IoEngine::new();
    assert!(!engine.update_config_from_shared(0));
    assert!(engine.update_config_from_shared(4));
    assert!(!engine.update_config_from_shared(4));
    assert!(engine.update_config_from_shared(5));
}

#[test]
fn warmup_completes_after_frames() {
    let mut engine = IoEngine::new();
    engine.start(480);
    assert!(!engine.warmup_complete());
    for _ in 0..WARMUP_FRAMES {
        engine.process(&vec![0u32; 960], &mut vec![0u32; 960], true);
    }
    assert!(engine.warmup_complete());
}

#[test]
fn buffer_cleanliness() {
    assert!(is_buffer_clean(&bits(&[0.0, 1.0, -3.5, f32::MAX]), 4));
    assert!(!is_buffer_clean(&bits(&[0.0, f32::NAN]), 2));
    assert!(!is_buffer_clean(&bits(&[f32::INFINITY]), 1));
    assert!(!is_buffer_clean(&bits(&[f32::NEG_INFINITY]), 1));
    // Only the first `len` samples are inspected.
    assert!(is_buffer_clean(&bits(&[1.0, f32::NAN]), 1));
}

#[test]
fn mix_plans() {
    assert_eq!(mix_plan(false, true, true, true), MixPlan::Dry);
    assert_eq!(mix_plan(true, true, true, false), MixPlan::Crossfade { to_wet: true });
    assert_eq!(mix_plan(true, true, false, true), MixPlan::Crossfade { to_wet: false });
    assert_eq!(mix_plan(true, false, true, true), MixPlan::Wet);
    assert_eq!(mix_plan(true, false, true, false), MixPlan::WarmupBlend);
    assert_eq!(mix_plan(true, false, false, true), MixPlan::Dry);
}

#[test]
fn stereo_split_and_join() {
    let input = vec![1u32, 2, 3, 4, 5, 6, 99];
    let mut left = vec![0u32; 4];
    let mut right = vec![0u32; 4];
    deinterleave_stereo(&input, 3, &mut left, &mut right);
    assert_eq!(left, vec![1, 3, 5, 0]);
    assert_eq!(right, vec![2, 4, 6, 0]);
    let mut output = vec![7u32; 7];
    interleave_stereo(&left, &right, 3, &mut output);
    assert_eq!(output, vec![1, 2, 3, 4, 5, 6, 7]);
}

#[test]
fn short_mono_output_passes_through() {
    let mut engine = IoEngine::new();
    engine.initialize(48000, 1);
    engine.start(480);
    let input = vec![5u32; 480];
    let mut output = vec![0u32; 100];
    assert_eq!(engine.process(&input, &mut output, true), IoRoute::Passthrough);
    assert_eq!(output, vec![5u32; 100]);
}
