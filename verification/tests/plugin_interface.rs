use phaselith::constants::{AUDIO_SERVER_PLUGIN_TYPE_UUID, DEVICE_UUID};
use phaselith::plugin_interface::{
    driver_add_ref, driver_release, factory_accepts, io_operation_samples, will_do_io_operation, IoClients,
    IO_OPERATION_PROCESS_OUTPUT,
};

#[test]
fn factory_serves_only_plugin_type() {
    assert!(factory_accepts(AUDIO_SERVER_PLUGIN_TYPE_UUID));
    assert!(!factory_accepts(DEVICE_UUID));
    let mut other = AUDIO_SERVER_PLUGIN_TYPE_UUID;
    other[15] ^= 1;
    assert!(!factory_accepts(other));
}

#[test]
fn only_output_processing_is_done() {
    assert_eq!(will_do_io_operation(IO_OPERATION_PROCESS_OUTPUT), (1, 0));
    assert_eq!(will_do_io_operation(0), (0, 0));
    assert_eq!(will_do_io_operation(3), (0, 0));
}

#[test]
fn io_operation_sample_counts() {
    assert_eq!(io_operation_samples(IO_OPERATION_PROCESS_OUTPUT, 512), Some(1024));
    assert_eq!(io_operation_samples(IO_OPERATION_PROCESS_OUTPUT, 0), None);
    assert_eq!(io_operation_samples(1, 512), None);
}

#[test]
fn io_clients_start_and_stop() {
    let mut c = IoClients::new();
    assert!(c.start_io());
    assert!(!c.start_io());
    assert_eq!(c.io_client_count, 2);
    assert!(!c.stop_io());
    assert!(c.io_running);
    assert!(c.stop_io());
    assert!(!c.io_running);
    assert_eq!(c.io_client_count, 0);
    // A stop with no clients counts nothing and stops nothing.
    assert!(!c.stop_io());
    assert_eq!(c.io_client_count, 0);
}

#[test]
fn driver_reference_counting() {
    let mut count = 1u32;
    assert_eq!(driver_add_ref(&mut count), 2);
    assert_eq!(driver_release(&mut count), (1, false));
    assert_eq!(driver_release(&mut count), (0, true));
    assert_eq!(count, 0);
}
