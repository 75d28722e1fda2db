use phaselith::apo_com::{
    calc_input_frames, calc_output_frames, check_format, create_instance_kind, get_class_object, query_target,
    ApoComState, ApoError, ConnectionDescriptor, FactoryError, InstanceKind, InterfaceIds, ProcessPlan,
    QueryTarget, ServerLocks, BUFFER_INVALID, BUFFER_SILENT, BUFFER_VALID,
};
use phaselith::guid::{clsid_phaselith_apo, iid_iunknown, Guid};

fn g(n: u32) -> Guid {
    Guid { data1: n, data2: 1, data3: 2, data4: [3, 4, 5, 6, 7, 8, 9, 10] }
}

#[test]
fn reset_refused_while_locked() {
    let mut s = ApoComState::new();
    assert_eq!(s.reset(), Ok(()));
    assert_eq!(s.lock_for_process(None).unwrap(), (48000, 2, 480));
    assert_eq!(s.reset(), Err(ApoError::AlreadyInitialized));
    s.unlock_for_process();
    assert_eq!(s.reset(), Ok(()));
}

#[test]
fn lock_takes_descriptor_and_refuses_relock() {
    let mut s = ApoComState::new();
    assert_eq!(s.initialize(), (48000, 2));
    assert!(s.initialized);
    let d = ConnectionDescriptor { max_frame_count: 528, format: Some((44100, 1)) };
    assert_eq!(s.lock_for_process(Some(d)).unwrap(), (44100, 1, 528));
    assert_eq!(s.input_channel_count(), 1);
    assert_eq!(s.lock_for_process(Some(d)).unwrap_err(), ApoError::AlreadyInitialized);
    s.unlock_for_process();
    let d = ConnectionDescriptor { max_frame_count: 256, format: None };
    assert_eq!(s.lock_for_process(Some(d)).unwrap(), (44100, 1, 256));
}

#[test]
fn process_plans() {
    let mut s = ApoComState::new();
    assert_eq!(s.apo_process(BUFFER_INVALID, 480), ProcessPlan::Mark { flags: BUFFER_INVALID });
    assert_eq!(s.apo_process(BUFFER_VALID, 0), ProcessPlan::Mark { flags: BUFFER_SILENT });
    assert_eq!(s.apo_process(BUFFER_VALID, 480), ProcessPlan::Run { frames: 480, sample_count: 960 });
    assert_eq!(s.process_call_count, 3);
    let d = ConnectionDescriptor { max_frame_count: 480, format: Some((48000, 0)) };
    s.lock_for_process(Some(d)).unwrap();
    assert_eq!(s.apo_process(BUFFER_VALID, 480), ProcessPlan::Skip);
}

#[test]
fn format_answers_and_frame_counts() {
    assert_eq!(check_format(48000, 32, 2, true), Ok(()));
    assert_eq!(check_format(48000, 32, 6, true), Err(ApoError::FormatNotSupported));
    assert_eq!(calc_input_frames(480), 480);
    assert_eq!(calc_output_frames(441), 441);
}

#[test]
fn factory_decisions() {
    assert_eq!(create_instance_kind(false, &g(1)), Ok(InstanceKind::Standalone));
    assert_eq!(create_instance_kind(true, &iid_iunknown()), Ok(InstanceKind::Aggregated));
    assert_eq!(create_instance_kind(true, &g(1)), Err(FactoryError::NoAggregation));
    assert_eq!(get_class_object(&clsid_phaselith_apo()), Ok(()));
    assert_eq!(get_class_object(&g(1)), Err(FactoryError::ClassNotAvailable));
}

#[test]
fn query_targets() {
    let ids = InterfaceIds {
        unknown: iid_iunknown(),
        apo: g(1),
        apo_rt: g(2),
        apo_config: g(3),
        system_effects: g(4),
        system_effects2: g(5),
        system_effects3: g(6),
    };
    assert_eq!(query_target(&iid_iunknown(), &ids), Some(QueryTarget::NonDelegating));
    assert_eq!(query_target(&g(2), &ids), Some(QueryTarget::ApoRt));
    assert_eq!(query_target(&g(6), &ids), Some(QueryTarget::SystemEffects3));
    assert_eq!(query_target(&g(7), &ids), None);
}

#[test]
fn server_locks() {
    let mut locks = ServerLocks::new();
    assert!(locks.can_unload());
    locks.lock_server(true);
    assert!(!locks.can_unload());
    locks.lock_server(false);
    assert!(locks.can_unload());
    locks.lock_server(false);
    assert_eq!(locks.count, u32::MAX);
}
