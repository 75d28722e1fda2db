use phaselith::config::QualityMode;
use phaselith::module::{delayed_repair_plan, DamagePosteriorEngine, InverseResidualSolver, NoOpModule, DAMAGE_UPDATE_INTERVAL};

#[test]
fn noop_module_has_name() {
    let module = NoOpModule::new("test-noop");
    assert_eq!(module.name(), "test-noop");
}

#[test]
fn damage_engine_initializes() {
    let mut engine = DamagePosteriorEngine::new();
    engine.init(1024, 48000);
    assert_eq!(engine.sample_rate, 48000);
}

#[test]
fn damage_engine_reset() {
    let mut engine = DamagePosteriorEngine::new();
    engine.init(1024, 48000);
    engine.frame_counter = 100;
    engine.reset();
    assert_eq!(engine.frame_counter, 0);
}

#[test]
fn solver_initializes() {
    let mut m4 = InverseResidualSolver::new();
    m4.init(2048, 48000);
    assert_eq!(m4.sample_rate, 48000);
}

#[test]
fn solver_skips_empty_lattice() {
    let mut m4 = InverseResidualSolver::new();
    m4.init(2048, 48000);
    // An empty lattice has no core bins: nothing is solved.
    assert!(!m4.begin_solve(0));
    assert_eq!(m4.num_bins, 0);
}

#[test]
fn solver_takes_bin_count_of_lattice() {
    let mut m4 = InverseResidualSolver::new();
    assert!(m4.begin_solve(513));
    assert_eq!(m4.num_bins, 513);
    m4.reset();
    assert_eq!(m4.num_bins, 0);
    assert_eq!(m4.name(), "M4:Solver");
}

#[test]
fn damage_engine_analyses_every_interval() {
    let mut engine = DamagePosteriorEngine::new();
    engine.init(1024, 48000);
    assert_eq!(engine.update_interval, DAMAGE_UPDATE_INTERVAL);
    let mut analysed = Vec::new();
    for frame in 1..=64u64 {
        if engine.begin_frame(QualityMode::Standard) {
            analysed.push(frame);
        }
    }
    // Frame 1 is not an update frame; frames 32 and 64 are.
    assert_eq!(analysed, vec![32, 64]);
    assert_eq!(engine.frame_counter, 64);
    assert_eq!(engine.fft_size, 1024);
}

#[test]
fn damage_engine_fft_follows_quality() {
    let mut engine = DamagePosteriorEngine::new();
    engine.begin_frame(QualityMode::Ultra);
    assert_eq!(engine.fft_size, 2048);
    engine.begin_frame(QualityMode::Light);
    assert_eq!(engine.fft_size, 512);
}

#[test]
fn delayed_repair_holds_back_a_hop() {
    // 128-sample blocks, hop 256, buffers of 1024 + 512.
    let p = delayed_repair_plan(256, 1536, 0, 128);
    assert_eq!((p.hop_delay, p.append_end, p.emit, p.held_after), (256, 128, 0, 128));
    let p = delayed_repair_plan(256, 1536, 128, 128);
    assert_eq!((p.emit, p.held_after), (0, 256));
    let p = delayed_repair_plan(256, 1536, 256, 128);
    assert_eq!((p.repair_start, p.emit, p.held_after), (128, 128, 256));
    // A block longer than the hop delays by its own length.
    let p = delayed_repair_plan(256, 1536, 0, 512);
    assert_eq!((p.hop_delay, p.emit, p.held_after), (512, 0, 512));
}
