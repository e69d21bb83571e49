use vstd::prelude::*;
use crate::commands::{Cmd, LightField, UniformSlot};
use crate::values::{UniformValue, Vec3Bits, F32_BITS_ZERO};

verus! {

/// Maximum number of lights uploaded to any shader per draw call.  Lights
/// beyond the limit are silently dropped, never an error.
pub const MAX_LIGHTS: usize = 4;

/// The variant of a light source.
#[derive(Clone, Copy, Debug, PartialEq, Eq)]
pub enum LightKind {
    Directional,
    Point { radius: u32 },
    Spot { angle: u32, outer_angle: u32 },
}

/// A light source.  `direction` is expected to be normalized by whoever
/// constructs the light; the pipeline carries it through unchanged.
#[derive(Clone, Copy, Debug, PartialEq, Eq)]
pub struct Light {
    pub kind: LightKind,
    pub position: Vec3Bits,
    pub direction: Vec3Bits,
    pub color: Vec3Bits,
    pub intensity: u32,
    pub cast_shadows: bool,
}

impl Light {
    /// A directional light: parallel rays along `direction`.
    pub fn directional(direction: Vec3Bits, color: Vec3Bits, intensity: u32) -> (l: Light)
        ensures
            l == (Light {
                kind: LightKind::Directional,
                position: Vec3Bits { x: F32_BITS_ZERO, y: F32_BITS_ZERO, z: F32_BITS_ZERO },
                direction,
                color,
                intensity,
                cast_shadows: false,
            }),
    {
        Light {
            kind: LightKind::Directional,
            position: Vec3Bits::zero(),
            direction,
            color,
            intensity,
            cast_shadows: false,
        }
    }

    /// A point light radiating from `position` out to `radius`.
    pub fn point(position: Vec3Bits, color: Vec3Bits, intensity: u32, radius: u32) -> (l: Light)
        ensures
            l == (Light {
                kind: LightKind::Point { radius },
                position,
                direction: Vec3Bits { x: F32_BITS_ZERO, y: F32_BITS_ZERO, z: F32_BITS_ZERO },
                color,
                intensity,
                cast_shadows: false,
            }),
    {
        Light {
            kind: LightKind::Point { radius },
            position,
            direction: Vec3Bits::zero(),
            color,
            intensity,
            cast_shadows: false,
        }
    }

    /// A spot light: a cone from `position` along `direction` with the
    /// given inner and outer half-angles.
    pub fn spot(
        position: Vec3Bits,
        direction: Vec3Bits,
        color: Vec3Bits,
        intensity: u32,
        angle: u32,
        outer_angle: u32,
    ) -> (l: Light)
        ensures
            l == (Light {
                kind: LightKind::Spot { angle, outer_angle },
                position,
                direction,
                color,
                intensity,
                cast_shadows: false,
            }),
    {
        Light { kind: LightKind::Spot { angle, outer_angle }, position, direction, color, intensity, cast_shadows: false }
    }

    /// This light, with shadow casting switched on or off.
    pub fn with_shadows(self, cast: bool) -> (l: Light)
        ensures
            l == (Light { cast_shadows: cast, ..self }),
    {
        Light { cast_shadows: cast, ..self }
    }

    /// The integer tag shaders receive for the light's variant:
    /// 0 directional, 1 point, 2 spot.
    pub open spec fn spec_type_id(self) -> i32 {
        match self.kind {
            LightKind::Directional => 0,
            LightKind::Point { .. } => 1,
            LightKind::Spot { .. } => 2,
        }
    }

    /// The integer tag shaders receive for the light's variant.
    pub fn type_id(&self) -> (r: i32)
        ensures
            r == self.spec_type_id(),
    {
        match self.kind {
            LightKind::Directional => 0,
            LightKind::Point { .. } => 1,
            LightKind::Spot { .. } => 2,
        }
    }

    /// The effective radius uploaded for the light: the point light's
    /// radius, 0.0 for every other variant.
    pub open spec fn spec_radius(self) -> u32 {
        match self.kind {
            LightKind::Point { radius } => radius,
            _ => F32_BITS_ZERO,
        }
    }

    /// The effective radius uploaded for the light.
    pub fn radius_bits(&self) -> (r: u32)
        ensures
            r == self.spec_radius(),
    {
        match self.kind {
            LightKind::Point { radius } => radius,
            _ => F32_BITS_ZERO,
        }
    }

    /// The six uniform uploads that publish this light as entry `i` of the
    /// shader's light array.
    pub open spec fn spec_upload_cmds(self, i: usize) -> Seq<Cmd> {
        seq![
            Cmd::SetUniform {
                slot: UniformSlot::LightEntry { index: i, field: LightField::Kind },
                value: UniformValue::Int(self.spec_type_id()),
            },
            Cmd::SetUniform {
                slot: UniformSlot::LightEntry { index: i, field: LightField::Direction },
                value: UniformValue::Vec3(self.direction),
            },
            Cmd::SetUniform {
                slot: UniformSlot::LightEntry { index: i, field: LightField::Position },
                value: UniformValue::Vec3(self.position),
            },
            Cmd::SetUniform {
                slot: UniformSlot::LightEntry { index: i, field: LightField::Color },
                value: UniformValue::Vec3(self.color),
            },
            Cmd::SetUniform {
                slot: UniformSlot::LightEntry { index: i, field: LightField::Intensity },
                value: UniformValue::Float(self.intensity),
            },
            Cmd::SetUniform {
                slot: UniformSlot::LightEntry { index: i, field: LightField::Radius },
                value: UniformValue::Float(self.spec_radius()),
            },
        ]
    }
}

/// How many of `n` offered lights are uploaded: all of them up to
/// [`MAX_LIGHTS`], then clamped.
pub open spec fn spec_num_uploaded(n: nat) -> nat {
    if n < MAX_LIGHTS as nat {
        n
    } else {
        MAX_LIGHTS as nat
    }
}

/// The uploads of the first `n` lights, in order.
pub open spec fn spec_uploads_prefix(lights: Seq<Light>, n: int) -> Seq<Cmd>
    recommends
        n <= lights.len(),
    decreases n,
{
    if n <= 0 {
        Seq::empty()
    } else {
        spec_uploads_prefix(lights, n - 1) + lights[n - 1].spec_upload_cmds((n - 1) as usize)
    }
}

/// The full light upload for one draw call: the active-light-count uniform,
/// then the first `spec_num_uploaded` lights in order.
pub open spec fn spec_apply_lights_cmds(lights: Seq<Light>) -> Seq<Cmd> {
    seq![
        Cmd::SetUniform {
            slot: UniformSlot::NumLights,
            value: UniformValue::Int(spec_num_uploaded(lights.len()) as i32),
        },
    ] + spec_uploads_prefix(lights, spec_num_uploaded(lights.len()) as int)
}

/// Emits the uniform uploads publishing `lights` to the bound program: the
/// active-light-count uniform is set to `min(lights.len(), MAX_LIGHTS)`,
/// and exactly the first that many lights are uploaded, in order; lights
/// beyond the limit are dropped silently.
pub fn apply_lights(lights: &[Light]) -> (cmds: Vec<Cmd>)
    ensures
        cmds@ =~= spec_apply_lights_cmds(lights@),
        cmds@[0] == (Cmd::SetUniform {
            slot: UniformSlot::NumLights,
            value: UniformValue::Int(spec_num_uploaded(lights@.len()) as i32),
        }),
{
    let n: usize = if lights.len() < MAX_LIGHTS {
        lights.len()
    } else {
        MAX_LIGHTS
    };
    let mut cmds: Vec<Cmd> = Vec::new();
    cmds.push(
        Cmd::SetUniform { slot: UniformSlot::NumLights, value: UniformValue::Int(n as i32) },
    );
    for i in 0..n
        invariant
            n == spec_num_uploaded(lights@.len()),
            n <= lights@.len(),
            cmds@ =~= seq![
                Cmd::SetUniform {
                    slot: UniformSlot::NumLights,
                    value: UniformValue::Int(n as i32),
                },
            ] + spec_uploads_prefix(lights@, i as int),
    {
        let l = lights[i];
        cmds.push(
            Cmd::SetUniform {
                slot: UniformSlot::LightEntry { index: i, field: LightField::Kind },
                value: UniformValue::Int(l.type_id()),
            },
        );
        cmds.push(
            Cmd::SetUniform {
                slot: UniformSlot::LightEntry { index: i, field: LightField::Direction },
                value: UniformValue::Vec3(l.direction),
            },
        );
        cmds.push(
            Cmd::SetUniform {
                slot: UniformSlot::LightEntry { index: i, field: LightField::Position },
                value: UniformValue::Vec3(l.position),
            },
        );
        cmds.push(
            Cmd::SetUniform {
                slot: UniformSlot::LightEntry { index: i, field: LightField::Color },
                value: UniformValue::Vec3(l.color),
            },
        );
        cmds.push(
            Cmd::SetUniform {
                slot: UniformSlot::LightEntry { index: i, field: LightField::Intensity },
                value: UniformValue::Float(l.intensity),
            },
        );
        cmds.push(
            Cmd::SetUniform {
                slot: UniformSlot::LightEntry { index: i, field: LightField::Radius },
                value: UniformValue::Float(l.radius_bits()),
            },
        );
    }
    cmds
}

} // verus!
