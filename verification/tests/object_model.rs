use phaselith::constants::{
    CLASS_DEVICE, CLASS_LEVEL_CONTROL, CLASS_OBJECT, CLASS_PLUGIN, CLASS_STREAM, CLASS_VOLUME_CONTROL,
    DEVICE_OBJECT_ID, PLUGIN_OBJECT_ID, STREAM_INPUT_OBJECT_ID, STREAM_OUTPUT_OBJECT_ID,
    VOLUME_CONTROL_OBJECT_ID,
};
use phaselith::object_model::{ObjectStore, ObjectType};

#[test]
fn object_hierarchy() {
    let store = ObjectStore::new();

    // Plugin is root
    assert_eq!(store.object_type(PLUGIN_OBJECT_ID), Some(ObjectType::Plugin));
    assert_eq!(store.children_of(PLUGIN_OBJECT_ID), &[DEVICE_OBJECT_ID]);

    // Device owns streams and controls
    assert_eq!(store.object_type(DEVICE_OBJECT_ID), Some(ObjectType::Device));
    assert_eq!(store.owner_of(DEVICE_OBJECT_ID), PLUGIN_OBJECT_ID);
    assert_eq!(store.children_of(DEVICE_OBJECT_ID).len(), 3);

    // Streams owned by device
    assert_eq!(store.owner_of(STREAM_INPUT_OBJECT_ID), DEVICE_OBJECT_ID);
    assert_eq!(store.owner_of(STREAM_OUTPUT_OBJECT_ID), DEVICE_OBJECT_ID);

    // Volume control owned by device
    assert_eq!(store.owner_of(VOLUME_CONTROL_OBJECT_ID), DEVICE_OBJECT_ID);
}

#[test]
fn unknown_object_returns_none() {
    let store = ObjectStore::new();
    assert_eq!(store.object_type(999), None);
}

#[test]
fn class_ids() {
    let store = ObjectStore::new();
    assert_eq!(store.class_of(ObjectType::Plugin), CLASS_PLUGIN);
    assert_eq!(store.class_of(ObjectType::Device), CLASS_DEVICE);
    assert_eq!(store.class_of(ObjectType::StreamInput), CLASS_STREAM);
    assert_eq!(store.class_of(ObjectType::VolumeControl), CLASS_VOLUME_CONTROL);
}

#[test]
fn every_child_names_its_parent_as_owner() {
    let store = ObjectStore::new();
    for parent in [PLUGIN_OBJECT_ID, DEVICE_OBJECT_ID] {
        for child in store.children_of(parent) {
            assert_eq!(store.owner_of(child), parent);
        }
    }
    assert_eq!(
        store.children_of(DEVICE_OBJECT_ID),
        vec![STREAM_INPUT_OBJECT_ID, STREAM_OUTPUT_OBJECT_ID, VOLUME_CONTROL_OBJECT_ID]
    );
    assert!(store.children_of(STREAM_INPUT_OBJECT_ID).is_empty());
    assert!(store.children_of(999).is_empty());
}

#[test]
fn streams_and_controls_of_device() {
    let store = ObjectStore::new();
    assert_eq!(store.streams_of(DEVICE_OBJECT_ID), vec![STREAM_INPUT_OBJECT_ID, STREAM_OUTPUT_OBJECT_ID]);
    assert_eq!(store.controls_of(DEVICE_OBJECT_ID), vec![VOLUME_CONTROL_OBJECT_ID]);
    // The device is the only device: any ID names it.
    assert_eq!(store.streams_of(PLUGIN_OBJECT_ID), store.streams_of(DEVICE_OBJECT_ID));
    assert_eq!(store.controls_of(999), store.controls_of(DEVICE_OBJECT_ID));
}

#[test]
fn base_classes_and_unknown_owner() {
    let store = ObjectStore::new();
    assert_eq!(store.base_class_of(ObjectType::Plugin), CLASS_OBJECT);
    assert_eq!(store.base_class_of(ObjectType::Device), CLASS_OBJECT);
    assert_eq!(store.base_class_of(ObjectType::StreamOutput), CLASS_OBJECT);
    assert_eq!(store.base_class_of(ObjectType::VolumeControl), CLASS_LEVEL_CONTROL);
    assert_eq!(store.class_of(ObjectType::StreamOutput), CLASS_STREAM);
    assert_eq!(store.owner_of(PLUGIN_OBJECT_ID), PLUGIN_OBJECT_ID);
    assert_eq!(store.owner_of(999), PLUGIN_OBJECT_ID);
    assert_eq!(store.volume_scalar_bits, 1.0f32.to_bits());
}
