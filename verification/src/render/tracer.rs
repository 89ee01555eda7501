//! Main-world tracer systems: camera key mapping and the displayed texture.
use vstd::prelude::*;

verus! {

/// The movement keys held this frame.
#[derive(PartialEq, Eq, Structural, Clone, Copy, Debug)]
pub struct MoveKeys {
    /// `W`
    pub forward: bool,
    /// `S`
    pub back: bool,
    /// `A`
    pub left: bool,
    /// `D`
    pub right: bool,
    /// Left shift
    pub down: bool,
    /// Space
    pub up: bool,
}

/// Direction of camera motion in the camera's local frame, one unit of the
/// move speed per axis: each component is -1, 0 or 1.
#[derive(PartialEq, Eq, Structural, Clone, Copy, Debug)]
pub struct MoveDirection {
    pub x: i8,
    pub y: i8,
    pub z: i8,
}

/// The sign along one axis from the key for the negative and the key for the
/// positive direction; the negative key wins when both are held.
pub open spec fn axis(negative: bool, positive: bool) -> i8 {
    if negative {
        -1i8
    } else if positive {
        1i8
    } else {
        0i8
    }
}

/// The direction the keys ask for: forward is `-z`, right is `+x`, up is `+y`.
pub open spec fn key_direction(keys: MoveKeys) -> MoveDirection {
    MoveDirection {
        x: axis(keys.left, keys.right),
        y: axis(keys.down, keys.up),
        z: axis(keys.forward, keys.back),
    }
}

/// Maps the held keys to the camera's direction of motion. `W` takes
/// precedence over `S`, `A` over `D`, and left shift over space.
pub fn cam_movement(keys: &MoveKeys) -> (d: MoveDirection)
    ensures
        d == key_direction(*keys),
{
    let mut d = MoveDirection { x: 0, y: 0, z: 0 };
    if keys.forward {
        d.z = -1;
    } else if keys.back {
        d.z = 1;
    }
    if keys.left {
        d.x = -1;
    } else if keys.right {
        d.x = 1;
    }
    if keys.down {
        d.y = -1;
    } else if keys.up {
        d.y = 1;
    }
    d
}

/// Which render texture to display next, by index (0 is the first render
/// texture, 1 the second): the one that is not shown now.
pub open spec fn other_texture(showing_first: bool) -> usize {
    if showing_first {
        1
    } else {
        0
    }
}

/// Flips the displayed render texture: the second when the first is shown,
/// the first otherwise.
pub fn swap_image(showing_first: bool) -> (next: usize)
    ensures
        next == other_texture(showing_first),
{
    if showing_first {
        1
    } else {
        0
    }
}

/// Each axis of the camera direction is -1, 0 or 1, and is -1 exactly when
/// its negative key is held.
pub proof fn lemma_direction_axes(keys: MoveKeys)
    ensures
        -1 <= key_direction(keys).x <= 1,
        -1 <= key_direction(keys).y <= 1,
        -1 <= key_direction(keys).z <= 1,
        key_direction(keys).z == -1 <==> keys.forward,
        key_direction(keys).x == -1 <==> keys.left,
        key_direction(keys).y == -1 <==> keys.down,
        key_direction(keys).z == 0 <==> !keys.forward && !keys.back,
        key_direction(keys).x == 0 <==> !keys.left && !keys.right,
        key_direction(keys).y == 0 <==> !keys.down && !keys.up,
{
}

/// The display flips every frame: the next texture differs from the shown
/// one, and two flips show the same texture again.
pub proof fn lemma_display_alternates(showing_first: bool)
    ensures
        (other_texture(showing_first) == 0) != showing_first,
        other_texture(other_texture(other_texture(showing_first) == 0) == 0) == other_texture(
            showing_first,
        ),
{
}

} // verus!
