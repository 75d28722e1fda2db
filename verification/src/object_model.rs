//! The CoreAudio audio object hierarchy the plugin presents:
//!
//! Plugin (1) owns Device (100), which owns the input stream (200), the
//! output stream (201) and the volume control (300).
use vstd::prelude::*;
use crate::constants::{
    PLUGIN_OBJECT_ID, DEVICE_OBJECT_ID, STREAM_INPUT_OBJECT_ID, STREAM_OUTPUT_OBJECT_ID,
    VOLUME_CONTROL_OBJECT_ID, CLASS_OBJECT, CLASS_PLUGIN, CLASS_DEVICE, CLASS_STREAM,
    CLASS_LEVEL_CONTROL, CLASS_VOLUME_CONTROL,
};

verus! {

/// Object types in the hierarchy.
#[derive(Debug, Clone, Copy, PartialEq, Eq, Structural)]
pub enum ObjectType {
    Plugin,
    Device,
    StreamInput,
    StreamOutput,
    VolumeControl,
}

/// The type of the object with an ID, if the hierarchy has one.
pub open spec fn spec_object_type(object_id: u32) -> Option<ObjectType> {
    if object_id == PLUGIN_OBJECT_ID {
        Some(ObjectType::Plugin)
    } else if object_id == DEVICE_OBJECT_ID {
        Some(ObjectType::Device)
    } else if object_id == STREAM_INPUT_OBJECT_ID {
        Some(ObjectType::StreamInput)
    } else if object_id == STREAM_OUTPUT_OBJECT_ID {
        Some(ObjectType::StreamOutput)
    } else if object_id == VOLUME_CONTROL_OBJECT_ID {
        Some(ObjectType::VolumeControl)
    } else {
        None
    }
}

/// The owner of an object; unknown objects (and the plugin) report the
/// plugin.
pub open spec fn spec_owner_of(object_id: u32) -> u32 {
    if object_id == DEVICE_OBJECT_ID {
        PLUGIN_OBJECT_ID
    } else if object_id == STREAM_INPUT_OBJECT_ID || object_id == STREAM_OUTPUT_OBJECT_ID {
        DEVICE_OBJECT_ID
    } else if object_id == VOLUME_CONTROL_OBJECT_ID {
        DEVICE_OBJECT_ID
    } else {
        PLUGIN_OBJECT_ID
    }
}

/// The objects an object owns.
pub open spec fn spec_children_of(object_id: u32) -> Seq<u32> {
    if object_id == PLUGIN_OBJECT_ID {
        seq![DEVICE_OBJECT_ID]
    } else if object_id == DEVICE_OBJECT_ID {
        seq![STREAM_INPUT_OBJECT_ID, STREAM_OUTPUT_OBJECT_ID, VOLUME_CONTROL_OBJECT_ID]
    } else {
        seq![]
    }
}

/// The class ID of an object type.
pub open spec fn spec_class_of(t: ObjectType) -> u32 {
    match t {
        ObjectType::Plugin => CLASS_PLUGIN,
        ObjectType::Device => CLASS_DEVICE,
        ObjectType::StreamInput | ObjectType::StreamOutput => CLASS_STREAM,
        ObjectType::VolumeControl => CLASS_VOLUME_CONTROL,
    }
}

/// The base class ID of an object type.
pub open spec fn spec_base_class_of(t: ObjectType) -> u32 {
    match t {
        ObjectType::VolumeControl => CLASS_LEVEL_CONTROL,
        _ => CLASS_OBJECT,
    }
}

/// The object store: the fixed hierarchy plus the volume control's level,
/// held as the bit pattern of an f32 in 0.0..=1.0.
pub struct ObjectStore {
    pub volume_scalar_bits: u32,
}

impl ObjectStore {
    /// A store with full volume (1.0).
    pub fn new() -> (r: Self)
        ensures
            r.volume_scalar_bits == 0x3f80_0000u32,
    {
        ObjectStore { volume_scalar_bits: 0x3f80_0000 }
    }

    /// Look up object type by AudioObjectID.
    pub fn object_type(&self, object_id: u32) -> (r: Option<ObjectType>)
        ensures
            r == spec_object_type(object_id),
    {
        match object_id {
            PLUGIN_OBJECT_ID => Some(ObjectType::Plugin),
            DEVICE_OBJECT_ID => Some(ObjectType::Device),
            STREAM_INPUT_OBJECT_ID => Some(ObjectType::StreamInput),
            STREAM_OUTPUT_OBJECT_ID => Some(ObjectType::StreamOutput),
            VOLUME_CONTROL_OBJECT_ID => Some(ObjectType::VolumeControl),
            _ => None,
        }
    }

    /// The owner (parent) object ID of an object.
    pub fn owner_of(&self, object_id: u32) -> (r: u32)
        ensures
            r == spec_owner_of(object_id),
    {
        match object_id {
            DEVICE_OBJECT_ID => PLUGIN_OBJECT_ID,
            STREAM_INPUT_OBJECT_ID | STREAM_OUTPUT_OBJECT_ID => DEVICE_OBJECT_ID,
            VOLUME_CONTROL_OBJECT_ID => DEVICE_OBJECT_ID,
            _ => PLUGIN_OBJECT_ID,
        }
    }

    /// The object IDs owned by an object.
    pub fn children_of(&self, object_id: u32) -> (r: Vec<u32>)
        ensures
            r@ == spec_children_of(object_id),
    {
        match object_id {
            PLUGIN_OBJECT_ID => vec![DEVICE_OBJECT_ID],
            DEVICE_OBJECT_ID => vec![STREAM_INPUT_OBJECT_ID, STREAM_OUTPUT_OBJECT_ID, VOLUME_CONTROL_OBJECT_ID],
            _ => vec![],
        }
    }

    /// The stream IDs of the device.
    pub fn streams_of(&self, device_id: u32) -> (r: Vec<u32>)
        ensures
            r@ == seq![STREAM_INPUT_OBJECT_ID, STREAM_OUTPUT_OBJECT_ID],
    {
        vec![STREAM_INPUT_OBJECT_ID, STREAM_OUTPUT_OBJECT_ID]
    }

    /// The control IDs of the device.
    pub fn controls_of(&self, device_id: u32) -> (r: Vec<u32>)
        ensures
            r@ == seq![VOLUME_CONTROL_OBJECT_ID],
    {
        vec![VOLUME_CONTROL_OBJECT_ID]
    }

    /// The class ID of an object type.
    pub fn class_of(&self, object_type: ObjectType) -> (r: u32)
        ensures
            r == spec_class_of(object_type),
    {
        match object_type {
            ObjectType::Plugin => CLASS_PLUGIN,
            ObjectType::Device => CLASS_DEVICE,
            ObjectType::StreamInput | ObjectType::StreamOutput => CLASS_STREAM,
            ObjectType::VolumeControl => CLASS_VOLUME_CONTROL,
        }
    }

    /// The base class ID of an object type.
    pub fn base_class_of(&self, object_type: ObjectType) -> (r: u32)
        ensures
            r == spec_base_class_of(object_type),
    {
        match object_type {
            ObjectType::Plugin => CLASS_OBJECT,
            ObjectType::Device => CLASS_OBJECT,
            ObjectType::StreamInput | ObjectType::StreamOutput => CLASS_OBJECT,
            ObjectType::VolumeControl => CLASS_LEVEL_CONTROL,
        }
    }
}

/// The hierarchy is a tree rooted at the plugin: every child of an object is
/// a known object whose owner is that object, and every known object other
/// than the plugin is a child of its owner.
pub proof fn lemma_hierarchy_consistent(parent: u32, i: int, object_id: u32)
    ensures
        0 <= i < spec_children_of(parent).len() ==> {
            let child = spec_children_of(parent)[i];
            spec_object_type(child) is Some && spec_owner_of(child) == parent
        },
        spec_object_type(object_id) is Some && object_id != PLUGIN_OBJECT_ID
            ==> spec_children_of(spec_owner_of(object_id)).contains(object_id),
{
    if spec_object_type(object_id) is Some && object_id != PLUGIN_OBJECT_ID {
        let kids = spec_children_of(spec_owner_of(object_id));
        if object_id == DEVICE_OBJECT_ID {
            assert(kids[0] == object_id);
        } else if object_id == STREAM_INPUT_OBJECT_ID {
            assert(kids[0] == object_id);
        } else if object_id == STREAM_OUTPUT_OBJECT_ID {
            assert(kids[1] == object_id);
        } else {
            assert(kids[2] == object_id);
        }
    }
}

/// The device's streams and controls are among the objects it owns.
pub proof fn lemma_streams_and_controls_are_children()
    ensures
        spec_children_of(DEVICE_OBJECT_ID).contains(STREAM_INPUT_OBJECT_ID),
        spec_children_of(DEVICE_OBJECT_ID).contains(STREAM_OUTPUT_OBJECT_ID),
        spec_children_of(DEVICE_OBJECT_ID).contains(VOLUME_CONTROL_OBJECT_ID),
{
    let kids = spec_children_of(DEVICE_OBJECT_ID);
    assert(kids[0] == STREAM_INPUT_OBJECT_ID);
    assert(kids[1] == STREAM_OUTPUT_OBJECT_ID);
    assert(kids[2] == VOLUME_CONTROL_OBJECT_ID);
}

} // verus!
