//! Core of a retained-mode 3D scene renderer.
//!
//! The library owns the scene model: drawable objects and lights held under
//! stable identifiers, a shadow subsystem driven by the first shadow-casting
//! light, and an ordered chain of toggleable post-processing effects applied
//! through ping-pong buffering.  Every per-frame decision — which render
//! target to bind, which lights to upload, which effects run and in what
//! order — is made here and emitted as an explicit list of render commands;
//! a thin host layer interprets those commands against the graphics API and
//! supplies the floating-point matrix arithmetic.

mod animator;
mod arena;
mod camera;
mod commands;
mod image;
mod light;
mod material;
mod mesh;
mod postprocess;
mod primitive;
mod scene;
mod shadow;
mod text;
mod transform;
mod values;

pub use animator::Animator;
pub use arena::{Arena, ArenaKey};
pub use camera::{Camera, F32_BITS_HUNDRED, F32_BITS_QUARTER_PI, F32_BITS_THREE};
pub use commands::{
    Aim, AttributeSlot, BufferRole, Cmd, LightField, MatrixSource, OrthoBounds, PingSlot,
    RenderTarget, ShadowProjection, TextureRole, UniformSlot,
};
pub use image::{
    chain_output, pp_neutral, pp_run, pp_step, set_target, target_content, texture_content,
    theorem_resolve_output, ImageExpr, PpState,
};
pub use light::{
    apply_lights, spec_apply_lights_cmds, spec_num_uploaded, spec_uploads_prefix, Light,
    LightKind, MAX_LIGHTS,
};
pub use material::{
    is_material_apply, is_table_upload, material_apply_len, spec_table_set, table_view,
    uniform_table_wf, Material, UniformTable,
};
pub use mesh::{
    is_mesh_draw, mesh_draw_len, spec_mesh_depth_cmds, spec_mesh_draw_tail,
    spec_mesh_geometry_cmds, Mesh, STRIDE_POSITION, STRIDE_POSITION_NORMAL,
};
pub use postprocess::{
    chain_cmds_len, effect_pass_len, enabled_views, is_effect_chain, is_effect_pass, is_resolve,
    lemma_resolve_of_enabled, lemma_resolve_order, resolve_cmds_len, spec_flip_n,
    spec_programs_of, spec_quad_cmds, EffectSpec, PostProcessEffect, PostProcessStack,
};
pub use primitive::Primitive;
pub use scene::{
    first_shadow_light, is_lit_draws, is_lit_object_draw, is_scene_render, lit_draws_len,
    lit_object_len, spec_depth_draws, spec_first_shadow_light, spec_pp_begin_cmds,
    spec_render_prefix, spec_shadow_pass_cmds, spec_shadow_projection_for, LightId, ObjectId,
    Scene, SceneObject,
};
pub use shadow::{
    f32_bits_times4_ok, spec_directional_bounds, spec_f32_neg, spec_f32_times4, ShadowMap,
    SHADOW_MAP_SIZE,
};
pub use text::{seq_contains, seq_contains_at, str_contains};
pub use transform::{QuatBits, Transform3D, Transformable};
pub use values::{
    AttributeInfo, BufferId, Mat4Bits, ProgramId, UniformValue, Vec2Bits, Vec3Bits, Vec4Bits,
    F32_BITS_FIFTY, F32_BITS_HALF_PI, F32_BITS_ONE, F32_BITS_TEN, F32_BITS_TENTH, F32_BITS_ZERO,
};
