//! How keyboard input turns the camera.
use vstd::prelude::*;

verus! {

/// The physical key of a keyboard event: a key code (by its number), or a key the platform
/// could not identify.
#[derive(Clone, Copy, Debug, PartialEq, Eq, Structural)]
pub enum PhysicalKey {
    Code(u32),
    Unidentified,
}

/// Whether the event's key is `key_code`.
pub fn key_pressed(physical_key: PhysicalKey, key_code: u32) -> (pressed: bool)
    ensures
        pressed == (physical_key == PhysicalKey::Code(key_code)),
{
    match physical_key {
        PhysicalKey::Code(code) => key_code == code,
        PhysicalKey::Unidentified => false,
    }
}

/// The key codes that turn the camera: up, down, left and right (W, S, A and D).
#[derive(Clone, Copy, Debug, PartialEq, Eq, Structural)]
pub struct CameraKeys {
    pub up: u32,
    pub down: u32,
    pub left: u32,
    pub right: u32,
}

/// A turn of the camera, in degrees.
#[derive(Clone, Copy, Debug, PartialEq, Eq, Structural)]
pub struct YawPitch {
    pub yaw_degrees: i32,
    pub pitch_degrees: i32,
}

/// The turn step, in degrees.
pub const TURN_DEGREES: i32 = 30;

/// The turns applied for an event with key `key`, in order: pitch down for up, pitch up for
/// down, yaw left for left, yaw right for right.
pub open spec fn turns_for(key: PhysicalKey, keys: CameraKeys) -> Seq<YawPitch> {
    let up = if key == PhysicalKey::Code(keys.up) { seq![YawPitch { yaw_degrees: 0, pitch_degrees: (-TURN_DEGREES) as i32 }] } else { seq![] };
    let down = if key == PhysicalKey::Code(keys.down) { seq![YawPitch { yaw_degrees: 0, pitch_degrees: TURN_DEGREES }] } else { seq![] };
    let left = if key == PhysicalKey::Code(keys.left) { seq![YawPitch { yaw_degrees: (-TURN_DEGREES) as i32, pitch_degrees: 0 }] } else { seq![] };
    let right = if key == PhysicalKey::Code(keys.right) { seq![YawPitch { yaw_degrees: TURN_DEGREES, pitch_degrees: 0 }] } else { seq![] };
    up + down + left + right
}

/// The turns the camera makes for a keyboard event (pressed or released) with key `key`.
pub fn camera_turns(key: PhysicalKey, keys: CameraKeys) -> (turns: Vec<YawPitch>)
    ensures
        turns@ == turns_for(key, keys),
{
    let mut turns = Vec::new();
    if key_pressed(key, keys.up) {
        turns.push(YawPitch { yaw_degrees: 0, pitch_degrees: -TURN_DEGREES });
    }
    if key_pressed(key, keys.down) {
        turns.push(YawPitch { yaw_degrees: 0, pitch_degrees: TURN_DEGREES });
    }
    if key_pressed(key, keys.left) {
        turns.push(YawPitch { yaw_degrees: -TURN_DEGREES, pitch_degrees: 0 });
    }
    if key_pressed(key, keys.right) {
        turns.push(YawPitch { yaw_degrees: TURN_DEGREES, pitch_degrees: 0 });
    }
    assert(turns@ =~= turns_for(key, keys));
    turns
}

/// With four different keys, an event turns the camera at most once; an event whose key is
/// none of them leaves the camera where it is.
pub proof fn lemma_one_turn_per_event(key: PhysicalKey, keys: CameraKeys)
    requires
        keys.up != keys.down,
        keys.up != keys.left,
        keys.up != keys.right,
        keys.down != keys.left,
        keys.down != keys.right,
        keys.left != keys.right,
    ensures
        turns_for(key, keys).len() <= 1,
        (key != PhysicalKey::Code(keys.up) && key != PhysicalKey::Code(keys.down)
            && key != PhysicalKey::Code(keys.left) && key != PhysicalKey::Code(keys.right))
            ==> turns_for(key, keys).len() == 0,
{
}

} // verus!
