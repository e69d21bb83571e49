use vstd::prelude::*;
use crate::values::{Vec3Bits, F32_BITS_ONE, F32_BITS_TENTH, F32_BITS_ZERO};

verus! {

/// Bit pattern of 3.0, the default camera distance.
pub const F32_BITS_THREE: u32 = 0x4040_0000;
/// Bit pattern of a quarter pi, the default vertical field of view.
pub const F32_BITS_QUARTER_PI: u32 = 0x3F49_0FDB;
/// Bit pattern of 100.0, the default far-plane distance.
pub const F32_BITS_HUNDRED: u32 = 0x42C8_0000;

/// A perspective camera.  The view and projection matrices it denotes are
/// computed by the host layer when a draw command carrying the camera is
/// executed: the view matrix looks from `position` toward `target` with the
/// given `up` vector, and the projection is a perspective frustum from
/// `fov_y`, `aspect`, `near` and `far`.
#[derive(Clone, Copy, Debug, PartialEq, Eq)]
pub struct Camera {
    pub position: Vec3Bits,
    pub target: Vec3Bits,
    pub up: Vec3Bits,
    pub fov_y: u32,
    pub aspect: u32,
    pub near: u32,
    pub far: u32,
}

impl Camera {
    /// A camera three units in front of the origin, looking at it, with the
    /// default quarter-pi field of view and a `[0.1, 100]` depth range.
    pub fn new(aspect: u32) -> (c: Camera)
        ensures
            c == Camera::spec_default(aspect),
    {
        Camera {
            position: Vec3Bits { x: F32_BITS_ZERO, y: F32_BITS_ZERO, z: F32_BITS_THREE },
            target: Vec3Bits { x: F32_BITS_ZERO, y: F32_BITS_ZERO, z: F32_BITS_ZERO },
            up: Vec3Bits { x: F32_BITS_ZERO, y: F32_BITS_ONE, z: F32_BITS_ZERO },
            fov_y: F32_BITS_QUARTER_PI,
            aspect,
            near: F32_BITS_TENTH,
            far: F32_BITS_HUNDRED,
        }
    }

    /// The default camera for a given aspect ratio, as a spec value.
    pub open spec fn spec_default(aspect: u32) -> Camera {
        Camera {
            position: Vec3Bits { x: F32_BITS_ZERO, y: F32_BITS_ZERO, z: F32_BITS_THREE },
            target: Vec3Bits { x: F32_BITS_ZERO, y: F32_BITS_ZERO, z: F32_BITS_ZERO },
            up: Vec3Bits { x: F32_BITS_ZERO, y: F32_BITS_ONE, z: F32_BITS_ZERO },
            fov_y: F32_BITS_QUARTER_PI,
            aspect,
            near: F32_BITS_TENTH,
            far: F32_BITS_HUNDRED,
        }
    }

    /// This camera, moved to `pos`.
    pub fn with_position(self, pos: Vec3Bits) -> (c: Camera)
        ensures
            c == (Camera { position: pos, ..self }),
    {
        Camera { position: pos, ..self }
    }

    /// This camera, looking at `target`.
    pub fn with_target(self, target: Vec3Bits) -> (c: Camera)
        ensures
            c == (Camera { target: target, ..self }),
    {
        Camera { target: target, ..self }
    }
}

} // verus!
