use vstd::prelude::*;
use crate::values::{Vec3Bits, F32_BITS_ONE, F32_BITS_ZERO};

verus! {

/// A rotation, held as the bit patterns of a unit quaternion's components.
#[derive(Clone, Copy, Debug, PartialEq, Eq)]
pub struct QuatBits {
    pub x: u32,
    pub y: u32,
    pub z: u32,
    pub w: u32,
}

impl QuatBits {
    /// The identity rotation `(0, 0, 0, 1)`.
    pub fn identity() -> (q: QuatBits)
        ensures
            q == (QuatBits {
                x: F32_BITS_ZERO,
                y: F32_BITS_ZERO,
                z: F32_BITS_ZERO,
                w: F32_BITS_ONE,
            }),
    {
        QuatBits { x: F32_BITS_ZERO, y: F32_BITS_ZERO, z: F32_BITS_ZERO, w: F32_BITS_ONE }
    }
}

/// Position, rotation and scale of an object in world space.  The model
/// matrix it denotes is computed by the host layer when a draw command
/// carrying the transform is executed.
#[derive(Clone, Copy, Debug, PartialEq, Eq)]
pub struct Transform3D {
    pub position: Vec3Bits,
    pub rotation: QuatBits,
    pub scale: Vec3Bits,
}

/// Objects that can be placed in space.
pub trait Transformable<V> {
    /// The position of the object.
    fn position(&self) -> V;

    /// Moves the object to `pos`.
    fn set_position(&mut self, pos: V);
}

impl Transform3D {
    /// The identity transform: origin position, identity rotation, unit
    /// scale.
    pub fn new() -> (t: Transform3D)
        ensures
            t == Transform3D::spec_identity(),
    {
        Transform3D {
            position: Vec3Bits { x: F32_BITS_ZERO, y: F32_BITS_ZERO, z: F32_BITS_ZERO },
            rotation: QuatBits::identity(),
            scale: Vec3Bits { x: F32_BITS_ONE, y: F32_BITS_ONE, z: F32_BITS_ONE },
        }
    }

    /// The identity transform as a spec value.
    pub open spec fn spec_identity() -> Transform3D {
        Transform3D {
            position: Vec3Bits { x: F32_BITS_ZERO, y: F32_BITS_ZERO, z: F32_BITS_ZERO },
            rotation: QuatBits {
                x: F32_BITS_ZERO,
                y: F32_BITS_ZERO,
                z: F32_BITS_ZERO,
                w: F32_BITS_ONE,
            },
            scale: Vec3Bits { x: F32_BITS_ONE, y: F32_BITS_ONE, z: F32_BITS_ONE },
        }
    }

    /// This transform, moved to `pos`.
    pub fn with_position(self, pos: Vec3Bits) -> (t: Transform3D)
        ensures
            t == (Transform3D { position: pos, ..self }),
    {
        Transform3D { position: pos, ..self }
    }

    /// This transform, rotated by `rot`.
    pub fn with_rotation(self, rot: QuatBits) -> (t: Transform3D)
        ensures
            t == (Transform3D { rotation: rot, ..self }),
    {
        Transform3D { rotation: rot, ..self }
    }

    /// This transform, scaled by `scale`.
    pub fn with_scale(self, scale: Vec3Bits) -> (t: Transform3D)
        ensures
            t == (Transform3D { scale: scale, ..self }),
    {
        Transform3D { scale: scale, ..self }
    }
}

impl Transformable<Vec3Bits> for Transform3D {
    fn position(&self) -> Vec3Bits {
        self.position
    }

    fn set_position(&mut self, pos: Vec3Bits) {
        self.position = pos;
    }
}

} // verus!
