use vstd::prelude::*;

verus! {

// The renderer never does arithmetic on the scalar quantities it carries —
// positions, colors, intensities, angles — it only decides which of them are
// handed to the graphics API, in which order and under which shader slot.
// Each scalar is therefore held as the bit pattern of the IEEE 754
// single-precision value it denotes, a `u32`; the host layer reinterprets
// the bits when it issues the call.  The constants below are the bit
// patterns of the few fixed quantities the pipeline itself chooses.

/// Bit pattern of 0.0.
pub const F32_BITS_ZERO: u32 = 0x0000_0000;
/// Bit pattern of 1.0.
pub const F32_BITS_ONE: u32 = 0x3F80_0000;
/// Bit pattern of 0.1, the fixed near-plane distance of shadow projections.
pub const F32_BITS_TENTH: u32 = 0x3DCC_CCCD;
/// Bit pattern of 10.0, the scene radius assumed for directional shadows.
pub const F32_BITS_TEN: u32 = 0x4120_0000;
/// Bit pattern of 50.0, the far plane assumed for spot-light shadows.
pub const F32_BITS_FIFTY: u32 = 0x4248_0000;
/// Bit pattern of half pi, the field of view of point-light shadows.
pub const F32_BITS_HALF_PI: u32 = 0x3FC9_0FDB;

/// A two-component vector of single-precision bit patterns.
#[derive(Clone, Copy, Debug, PartialEq, Eq)]
pub struct Vec2Bits {
    pub x: u32,
    pub y: u32,
}

/// A three-component vector of single-precision bit patterns.
#[derive(Clone, Copy, Debug, PartialEq, Eq)]
pub struct Vec3Bits {
    pub x: u32,
    pub y: u32,
    pub z: u32,
}

/// A four-component vector of single-precision bit patterns.
#[derive(Clone, Copy, Debug, PartialEq, Eq)]
pub struct Vec4Bits {
    pub x: u32,
    pub y: u32,
    pub z: u32,
    pub w: u32,
}

/// A 4x4 matrix of single-precision bit patterns, in column-major order.
#[derive(Clone, Copy, Debug, PartialEq, Eq)]
pub struct Mat4Bits {
    pub m: [u32; 16],
}

impl Vec3Bits {
    /// The zero vector: 0.0 has the all-zero bit pattern.
    pub fn zero() -> (v: Vec3Bits)
        ensures
            v == (Vec3Bits { x: F32_BITS_ZERO, y: F32_BITS_ZERO, z: F32_BITS_ZERO }),
    {
        Vec3Bits { x: F32_BITS_ZERO, y: F32_BITS_ZERO, z: F32_BITS_ZERO }
    }
}

/// Handle of a compiled and linked shader program.
///
/// The host layer compiles shaders, keeps the graphics objects in a table,
/// and hands the library the table key.
#[derive(Clone, Copy, Debug, PartialEq, Eq)]
pub struct ProgramId {
    pub id: u32,
}

/// Handle of a vertex buffer uploaded by the host layer.
#[derive(Clone, Copy, Debug, PartialEq, Eq)]
pub struct BufferId {
    pub id: u32,
}

/// A shader uniform value, tagged by its GLSL type.
#[derive(Clone, Copy, Debug, PartialEq)]
pub enum UniformValue {
    Float(u32),
    Vec2(Vec2Bits),
    Vec3(Vec3Bits),
    Vec4(Vec4Bits),
    Mat4(Mat4Bits),
    Int(i32),
}

/// Layout of one vertex attribute inside an interleaved vertex buffer:
/// component count, byte stride between vertices, and byte offset of the
/// first component.
#[derive(Clone, Copy, Debug, PartialEq, Eq)]
pub struct AttributeInfo {
    pub size: i32,
    pub stride: i32,
    pub offset: i32,
}

} // verus!
