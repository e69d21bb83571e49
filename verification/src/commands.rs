use vstd::prelude::*;
use crate::camera::Camera;
use crate::transform::Transform3D;
use crate::values::{AttributeInfo, BufferId, ProgramId, UniformValue, Vec3Bits, Vec4Bits};

verus! {

/// One of the two ping-pong color targets of the post-processing chain.
#[derive(Clone, Copy, Debug, PartialEq, Eq)]
pub enum PingSlot {
    A,
    B,
}

impl PingSlot {
    /// The other slot.
    pub open spec fn spec_other(self) -> PingSlot {
        match self {
            PingSlot::A => PingSlot::B,
            PingSlot::B => PingSlot::A,
        }
    }

    /// The other slot.
    pub fn other(self) -> (r: PingSlot)
        ensures
            r == self.spec_other(),
    {
        match self {
            PingSlot::A => PingSlot::B,
            PingSlot::B => PingSlot::A,
        }
    }
}

/// A render destination the pipeline can bind.
#[derive(Clone, Copy, Debug, PartialEq, Eq)]
pub enum RenderTarget {
    /// The presentation target (the default framebuffer).
    Screen,
    /// The offscreen color+depth target the lit scene is rendered into when
    /// post-processing is active.
    SceneBuffer,
    /// The shadow map's depth-only target.
    ShadowBuffer,
    /// One of the two ping-pong color targets.
    Ping(PingSlot),
}

/// A texture the pipeline can bind for sampling.
#[derive(Clone, Copy, Debug, PartialEq, Eq)]
pub enum TextureRole {
    /// The color attachment of the scene buffer.
    SceneColor,
    /// The depth attachment of the shadow map.
    ShadowDepth,
    /// The color attachment of a ping-pong target.
    Ping(PingSlot),
}

/// A vertex buffer the pipeline can bind.
#[derive(Clone, Copy, Debug, PartialEq, Eq)]
pub enum BufferRole {
    /// A mesh's vertex buffer, named by the handle the host issued.
    Mesh(BufferId),
    /// The built-in full-screen quad of the post-processing chain.
    Quad,
}

/// A vertex attribute slot of the bound program.
#[derive(Clone, Copy, Debug, PartialEq, Eq)]
pub enum AttributeSlot {
    Position,
    Normal,
    Uv,
}

/// A per-light shader parameter within the light array.
#[derive(Clone, Copy, Debug, PartialEq, Eq)]
pub enum LightField {
    Kind,
    Direction,
    Position,
    Color,
    Intensity,
    Radius,
}

/// A uniform slot of the bound program.  Uploads to slots the program does
/// not declare are silent no-ops, never errors.
#[derive(Clone, Debug, PartialEq)]
pub enum UniformSlot {
    /// The model matrix of the object being drawn.
    ModelMatrix,
    /// The camera's world-to-view matrix.
    ViewMatrix,
    /// The camera's projection matrix.
    ProjectionMatrix,
    /// The camera's world-space position.
    CameraPosition,
    /// Whether the lit pass samples the shadow map.
    ShadowsEnabled,
    /// The light-space matrix of the active shadow projection.
    LightSpaceMatrix,
    /// The texture unit holding the shadow depth texture.
    ShadowSampler,
    /// The number of lights uploaded for this draw.
    NumLights,
    /// One field of one entry of the light array.
    LightEntry { index: usize, field: LightField },
    /// The texture unit holding a post-process effect's input image.
    ScreenTexture,
    /// Seconds since the render loop started.
    Time,
    /// The viewport size in pixels, as two floats.
    Resolution,
    /// A material- or effect-defined uniform, by its shader name.
    Named(String),
}

/// A matrix value that the host computes when it executes the command
/// carrying it.
#[derive(Clone, Copy, Debug, PartialEq)]
pub enum MatrixSource {
    /// The model matrix of `Transform3D`: scale, then rotation, then
    /// translation.
    Model(Transform3D),
    /// The camera's view matrix.
    CameraView(Camera),
    /// The camera's projection matrix.
    CameraProjection(Camera),
    /// The light-space matrix derived from the most recent
    /// [`Cmd::SetShadowProjection`].
    LightSpace,
}

/// The orthographic frustum bounds of a directional shadow projection, as
/// single-precision bit patterns.
#[derive(Clone, Copy, Debug, PartialEq, Eq)]
pub struct OrthoBounds {
    pub left: u32,
    pub right: u32,
    pub bottom: u32,
    pub top: u32,
    pub near: u32,
    pub far: u32,
}

/// Where a perspective shadow projection looks.
#[derive(Clone, Copy, Debug, PartialEq, Eq)]
pub enum Aim {
    /// At a fixed world-space point.
    At(Vec3Bits),
    /// From the projection's position along this direction: the host aims
    /// at `position + direction`.
    Along(Vec3Bits),
}

/// The light-space projection the shadow pass renders with.  The host
/// derives the actual matrix: for `Directional`, a virtual light placed at
/// `center - normalize(direction) * radius * 2` looking at `center`, with
/// the orthographic frustum `bounds`; for `Perspective`, a square frustum
/// from `position` toward the aim point with the given vertical field of
/// view and depth range.
#[derive(Clone, Copy, Debug, PartialEq, Eq)]
pub enum ShadowProjection {
    Directional { direction: Vec3Bits, center: Vec3Bits, radius: u32, bounds: OrthoBounds },
    Perspective { position: Vec3Bits, aim: Aim, fov_y: u32, near: u32, far: u32 },
}

/// One step of a frame, in the exact order the host must execute them.
/// Draw calls within a frame execute in the order issued; later commands
/// may depend on state bound by earlier ones.
#[derive(Clone, Debug, PartialEq)]
pub enum Cmd {
    /// Bind `target` for rendering and set the viewport to `width` by
    /// `height` pixels.
    BindTarget { target: RenderTarget, width: i32, height: i32 },
    /// Set the clear color used by the clear commands that follow.
    SetClearColor { color: Vec4Bits },
    /// Clear the bound target's color and depth buffers.
    ClearColorAndDepth,
    /// Clear only the bound target's depth buffer.
    ClearDepth,
    /// Clear only the bound target's color.
    ClearColor,
    /// Enable or disable depth testing.
    SetDepthTest { enabled: bool },
    /// Make `program` the bound program for the commands that follow.
    UseProgram { program: ProgramId },
    /// Upload `value` to `slot` of the bound program, if the program
    /// declares it.
    SetUniform { slot: UniformSlot, value: UniformValue },
    /// Compute the matrix described by `source` and upload it to `slot` of
    /// the bound program, if the program declares it.
    SetMatrix { slot: UniformSlot, source: MatrixSource },
    /// Upload the viewport size as two floats to the resolution slot of the
    /// bound program, if the program declares it.
    SetResolution { width: i32, height: i32 },
    /// Bind `texture` to texture unit `unit` for sampling.
    BindTexture { unit: u32, texture: TextureRole },
    /// Bind `buffer` as the source of vertex attributes.
    BindVertexBuffer { buffer: BufferRole },
    /// Enable attribute `slot` of the bound program, if declared, reading
    /// it from the bound buffer with the given layout.
    EnableAttribute { slot: AttributeSlot, info: AttributeInfo },
    /// Draw `count` vertices starting at `first` as a triangle list.
    DrawTriangles { first: i32, count: i32 },
    /// Copy the scene buffer's color image to `to`.
    BlitScene { to: RenderTarget },
    /// Make `projection` the active shadow projection: the host computes
    /// its light-space matrix, which later [`MatrixSource::LightSpace`]
    /// uploads refer to.
    SetShadowProjection { projection: ShadowProjection },
}

} // verus!
