use vstd::prelude::*;
use crate::commands::{Aim, Cmd, OrthoBounds, RenderTarget, ShadowProjection, TextureRole};
use crate::values::{Vec3Bits, F32_BITS_TENTH};

verus! {

/// Resolution of the shadow map's square depth texture, in pixels.
pub const SHADOW_MAP_SIZE: i32 = 1024;

/// Whether `b` is the bit pattern of a positive normal single-precision
/// value that can still be scaled by four without leaving the finite range:
/// the sign bit is clear and the exponent leaves two steps of headroom.
pub open spec fn f32_bits_times4_ok(b: u32) -> bool {
    let e = (b >> 23) & 0xFF;
    b < 0x8000_0000 && 1 <= e && e <= 0xFC
}

/// The bit pattern of four times the value `b` denotes: adding two to the
/// exponent field of a positive normal value multiplies it by four.
pub open spec fn spec_f32_times4(b: u32) -> u32
    recommends
        f32_bits_times4_ok(b),
{
    (b + 0x0100_0000) as u32
}

/// The bit pattern of the negated value: the sign bit flipped.
pub open spec fn spec_f32_neg(b: u32) -> u32 {
    b ^ 0x8000_0000
}

/// The orthographic frustum of a directional shadow projection for a scene
/// of the given radius: `radius` wide on each side of the light axis, with
/// the fixed 0.1 near plane and a far plane of four times the radius — so
/// the depth span covers at least `[0.1, 4 * radius]`.
pub open spec fn spec_directional_bounds(radius: u32) -> OrthoBounds {
    OrthoBounds {
        left: spec_f32_neg(radius),
        right: radius,
        bottom: spec_f32_neg(radius),
        top: radius,
        near: F32_BITS_TENTH,
        far: spec_f32_times4(radius),
    }
}

/// The shadow subsystem's state: the fixed resolution of its depth target,
/// and the light-space projection configured for the current frame.  The
/// projection has no meaning before the first `update` call; the host owns
/// the framebuffer and depth texture (their creation, and its hard failure,
/// happen there before this state exists).
pub struct ShadowMap {
    size: i32,
    projection: Option<ShadowProjection>,
}

impl ShadowMap {
    /// The depth target's resolution.
    pub closed spec fn spec_size(&self) -> i32 {
        self.size
    }

    /// The projection configured by the last `update` call, if any.
    pub closed spec fn spec_projection(&self) -> Option<ShadowProjection> {
        self.projection
    }

    /// A shadow map at the default resolution, not yet configured.
    pub fn new() -> (s: ShadowMap)
        ensures
            s.spec_size() == SHADOW_MAP_SIZE as int,
            s.spec_projection() is None,
    {
        ShadowMap { size: SHADOW_MAP_SIZE, projection: None }
    }

    /// The depth target's resolution.
    pub fn size(&self) -> (n: i32)
        ensures
            n == self.spec_size(),
    {
        self.size
    }

    /// The projection configured by the last `update` call, if any.
    pub fn projection(&self) -> (p: Option<ShadowProjection>)
        ensures
            p == self.spec_projection(),
    {
        self.projection
    }

    /// Configures the projection for a directional light: a virtual light
    /// placed far along `-direction` from `scene_center`, with an
    /// orthographic frustum sized to `scene_radius` and a depth span of
    /// `[0.1, 4 * scene_radius]`.  A directional light has no position, so
    /// the frustum is derived from the scene extent alone.
    pub fn update_directional(&mut self, direction: Vec3Bits, scene_center: Vec3Bits, scene_radius: u32)
        requires
            f32_bits_times4_ok(scene_radius),
        ensures
            final(self).spec_size() == old(self).spec_size(),
            final(self).spec_projection() == Some(
                ShadowProjection::Directional {
                    direction,
                    center: scene_center,
                    radius: scene_radius,
                    bounds: spec_directional_bounds(scene_radius),
                },
            ),
    {
        let bounds = OrthoBounds {
            left: scene_radius ^ 0x8000_0000,
            right: scene_radius,
            bottom: scene_radius ^ 0x8000_0000,
            top: scene_radius,
            near: F32_BITS_TENTH,
            far: scene_radius + 0x0100_0000,
        };
        self.projection = Some(
            ShadowProjection::Directional {
                direction,
                center: scene_center,
                radius: scene_radius,
                bounds,
            },
        );
    }

    /// Configures a perspective projection from `position` toward `target`,
    /// used for point lights (aimed at the scene origin) and as the base
    /// for spot lights.
    pub fn update_point(&mut self, position: Vec3Bits, target: Vec3Bits, fov_y: u32, near: u32, far: u32)
        ensures
            final(self).spec_size() == old(self).spec_size(),
            final(self).spec_projection() == Some(
                ShadowProjection::Perspective { position, aim: Aim::At(target), fov_y, near, far },
            ),
    {
        self.projection = Some(
            ShadowProjection::Perspective { position, aim: Aim::At(target), fov_y, near, far },
        );
    }

    /// Configures a perspective projection from `position` looking along
    /// `direction` — the host aims it at `position + direction`.  Used for
    /// spot lights, which shadow along their own axis.
    pub fn update_point_toward(&mut self, position: Vec3Bits, direction: Vec3Bits, fov_y: u32, near: u32, far: u32)
        ensures
            final(self).spec_size() == old(self).spec_size(),
            final(self).spec_projection() == Some(
                ShadowProjection::Perspective {
                    position,
                    aim: Aim::Along(direction),
                    fov_y,
                    near,
                    far,
                },
            ),
    {
        self.projection = Some(
            ShadowProjection::Perspective {
                position,
                aim: Aim::Along(direction),
                fov_y,
                near,
                far,
            },
        );
    }

    /// The commands that redirect rendering into the shadow map: bind its
    /// depth target at its own resolution and clear the depth buffer.
    pub fn bind(&self) -> (cmds: Vec<Cmd>)
        ensures
            cmds@ =~= seq![
                Cmd::BindTarget {
                    target: RenderTarget::ShadowBuffer,
                    width: self.spec_size(),
                    height: self.spec_size(),
                },
                Cmd::ClearDepth,
            ],
    {
        let mut cmds: Vec<Cmd> = Vec::new();
        cmds.push(
            Cmd::BindTarget {
                target: RenderTarget::ShadowBuffer,
                width: self.size,
                height: self.size,
            },
        );
        cmds.push(Cmd::ClearDepth);
        cmds
    }

    /// The commands that restore the default render target and the
    /// viewport of the presentation surface.
    pub fn unbind(&self, width: i32, height: i32) -> (cmds: Vec<Cmd>)
        ensures
            cmds@ =~= seq![Cmd::BindTarget { target: RenderTarget::Screen, width, height }],
    {
        let mut cmds: Vec<Cmd> = Vec::new();
        cmds.push(Cmd::BindTarget { target: RenderTarget::Screen, width, height });
        cmds
    }

    /// The command that makes the shadow depth texture samplable on the
    /// given texture unit for the lit pass.
    pub fn bind_texture(&self, unit: u32) -> (cmds: Vec<Cmd>)
        ensures
            cmds@ =~= seq![Cmd::BindTexture { unit, texture: TextureRole::ShadowDepth }],
    {
        let mut cmds: Vec<Cmd> = Vec::new();
        cmds.push(Cmd::BindTexture { unit, texture: TextureRole::ShadowDepth });
        cmds
    }
}

} // verus!
