use vstd::prelude::*;
use crate::arena::{Arena, ArenaKey};
use crate::camera::Camera;
use crate::commands::{Aim, Cmd, MatrixSource, RenderTarget, ShadowProjection, TextureRole, UniformSlot};
use crate::light::{Light, LightKind};
use crate::material::Material;
use crate::mesh::{is_mesh_draw, mesh_draw_len, spec_mesh_depth_cmds, Mesh};
use crate::postprocess::{is_resolve, resolve_cmds_len, enabled_views, spec_flip_n, PostProcessStack};
use crate::shadow::{f32_bits_times4_ok, spec_directional_bounds, ShadowMap};
use crate::transform::Transform3D;
use crate::values::{ProgramId, UniformValue, Vec3Bits, Vec4Bits, F32_BITS_FIFTY, F32_BITS_HALF_PI, F32_BITS_ONE, F32_BITS_TEN, F32_BITS_TENTH, F32_BITS_ZERO};

verus! {

/// Stable identifier of a scene object.
#[derive(Clone, Copy, Debug, PartialEq, Eq)]
pub struct ObjectId {
    pub key: ArenaKey,
}

/// Stable identifier of a light.
#[derive(Clone, Copy, Debug, PartialEq, Eq)]
pub struct LightId {
    pub key: ArenaKey,
}

/// A renderable object: a mesh and its placement in world space.
pub struct SceneObject {
    pub mesh: Mesh,
    pub transform: Transform3D,
}

/// The first light of `lights` that casts shadows, if any: only this light
/// is honored by the shadow subsystem each frame.  `lights` is the live
/// light list in table iteration order, so with no removals this is the
/// first shadow-casting light ever added.
pub open spec fn spec_first_shadow_light(lights: Seq<Light>) -> Option<Light>
    decreases lights.len(),
{
    if lights.len() == 0 {
        None
    } else if lights[0].cast_shadows {
        Some(lights[0])
    } else {
        spec_first_shadow_light(lights.drop_first())
    }
}

/// When everything before `i` does not cast shadows and `lights[i]` does,
/// `lights[i]` is the selected shadow light.
proof fn lemma_first_shadow_at(lights: Seq<Light>, i: int)
    requires
        0 <= i < lights.len(),
        forall|j: int| 0 <= j < i ==> !lights[j].cast_shadows,
        lights[i].cast_shadows,
    ensures
        spec_first_shadow_light(lights) == Some(lights[i]),
    decreases i,
{
    if i > 0 {
        lemma_first_shadow_at(lights.drop_first(), i - 1);
    }
}

/// When no light casts shadows, none is selected.
proof fn lemma_first_shadow_none(lights: Seq<Light>)
    requires
        forall|j: int| 0 <= j < lights.len() ==> !lights[j].cast_shadows,
    ensures
        spec_first_shadow_light(lights) is None,
    decreases lights.len(),
{
    if lights.len() > 0 {
        lemma_first_shadow_none(lights.drop_first());
    }
}

/// The first shadow-casting light of `lights`, if any.
pub fn first_shadow_light(lights: &[Light]) -> (r: Option<Light>)
    ensures
        r == spec_first_shadow_light(lights@),
{
    let n: usize = lights.len();
    for i in 0..n
        invariant
            n == lights@.len(),
            forall|j: int| 0 <= j < i ==> !lights@[j].cast_shadows,
    {
        if lights[i].cast_shadows {
            proof {
                lemma_first_shadow_at(lights@, i as int);
            }
            return Some(lights[i]);
        }
    }
    proof {
        lemma_first_shadow_none(lights@);
    }
    None
}

/// The scene: the camera, the object and light tables under stable
/// identifiers, the opt-in shadow subsystem, and the opt-in post-process
/// stack.  Ownership is tree-shaped; the tables are flat keyed collections
/// with no cross-references.
pub struct Scene {
    camera: Camera,
    objects: Arena<SceneObject>,
    lights: Arena<Light>,
    shadow_map: Option<ShadowMap>,
    shadow_material: Option<Material>,
    shadows_enabled: bool,
    post_process: Option<PostProcessStack>,
}

impl Scene {
    /// The camera.
    pub closed spec fn spec_camera(&self) -> Camera {
        self.camera
    }

    /// The object table.
    pub closed spec fn spec_objects(&self) -> Arena<SceneObject> {
        self.objects
    }

    /// The light table.
    pub closed spec fn spec_lights(&self) -> Arena<Light> {
        self.lights
    }

    /// The shadow subsystem's state, once shadows have been enabled.
    pub closed spec fn spec_shadow_map(&self) -> Option<ShadowMap> {
        self.shadow_map
    }

    /// The shared depth-only material of the shadow pass.
    pub closed spec fn spec_shadow_material(&self) -> Option<Material> {
        self.shadow_material
    }

    /// Whether the shadow pass runs.
    pub closed spec fn spec_shadows_enabled(&self) -> bool {
        self.shadows_enabled
    }

    /// The post-process stack, if one has been set.
    pub closed spec fn spec_post_process(&self) -> Option<PostProcessStack> {
        self.post_process
    }

    /// Consistency of the scene: the tables are well formed, the stack's
    /// tables are well formed, and an enabled shadow pass has its map and
    /// its depth material.
    pub open spec fn wf(&self) -> bool {
        &&& self.spec_objects().wf()
        &&& self.spec_lights().wf()
        &&& (self.spec_post_process() matches Some(p) ==> p.wf())
        &&& (self.spec_shadows_enabled() ==> self.spec_shadow_map() is Some
            && self.spec_shadow_material() is Some)
    }

    /// An empty scene around `camera`: no objects, no lights, shadows off,
    /// no post-processing.
    pub fn new(camera: Camera) -> (s: Scene)
        ensures
            s.wf(),
            s.spec_camera() == camera,
            s.spec_objects().slots() =~= Seq::<Option<SceneObject>>::empty(),
            s.spec_lights().slots() =~= Seq::<Option<Light>>::empty(),
            s.spec_shadow_map() is None,
            !s.spec_shadows_enabled(),
            s.spec_post_process() is None,
    {
        Scene {
            camera,
            objects: Arena::new(),
            lights: Arena::new(),
            shadow_map: None,
            shadow_material: None,
            shadows_enabled: false,
            post_process: None,
        }
    }

    /// The camera.
    pub fn camera(&self) -> (c: Camera)
        ensures
            c == self.spec_camera(),
    {
        self.camera
    }

    /// Replaces the camera.
    pub fn set_camera(&mut self, camera: Camera)
        ensures
            final(self).spec_camera() == camera,
            final(self).spec_objects() == old(self).spec_objects(),
            final(self).spec_lights() == old(self).spec_lights(),
            final(self).spec_shadow_map() == old(self).spec_shadow_map(),
            final(self).spec_shadow_material() == old(self).spec_shadow_material(),
            final(self).spec_shadows_enabled() == old(self).spec_shadows_enabled(),
            final(self).spec_post_process() == old(self).spec_post_process(),
    {
        self.camera = camera;
    }

    /// Stores an object and returns its identifier.  The identifier
    /// resolves to exactly this object until it is removed, and never
    /// resolves to a different object; every other identifier keeps its
    /// meaning.
    pub fn add(&mut self, mesh: Mesh, transform: Transform3D) -> (id: ObjectId)
        requires
            old(self).wf(),
            old(self).spec_objects().slots().len() < usize::MAX,
        ensures
            final(self).wf(),
            !old(self).spec_objects().valid(id.key),
            final(self).spec_objects().valid(id.key),
            final(self).spec_objects().value_at(id.key).mesh == mesh,
            final(self).spec_objects().value_at(id.key).transform == transform,
            forall|k2: ArenaKey|
                k2 != id.key ==> (#[trigger] final(self).spec_objects().valid(k2)) == old(self).spec_objects().valid(k2),
            forall|k2: ArenaKey|
                k2 != id.key && old(self).spec_objects().valid(k2)
                    ==> #[trigger] final(self).spec_objects().value_at(k2) == old(self).spec_objects().value_at(k2),
            final(self).spec_camera() == old(self).spec_camera(),
            final(self).spec_lights() == old(self).spec_lights(),
            final(self).spec_shadow_map() == old(self).spec_shadow_map(),
            final(self).spec_shadow_material() == old(self).spec_shadow_material(),
            final(self).spec_shadows_enabled() == old(self).spec_shadows_enabled(),
            final(self).spec_post_process() == old(self).spec_post_process(),
    {
        let key = self.objects.insert(SceneObject { mesh, transform });
        ObjectId { key }
    }

    /// Stores a light and returns its identifier.
    pub fn add_light(&mut self, light: Light) -> (id: LightId)
        requires
            old(self).wf(),
            old(self).spec_lights().slots().len() < usize::MAX,
        ensures
            final(self).wf(),
            !old(self).spec_lights().valid(id.key),
            final(self).spec_lights().valid(id.key),
            final(self).spec_lights().value_at(id.key) == light,
            final(self).spec_lights().slots() =~= if id.key.index < old(self).spec_lights().slots().len() {
                old(self).spec_lights().slots().update(id.key.index as int, Some(light))
            } else {
                old(self).spec_lights().slots().push(Some(light))
            },
            forall|k2: ArenaKey|
                k2 != id.key ==> (#[trigger] final(self).spec_lights().valid(k2)) == old(self).spec_lights().valid(k2),
            forall|k2: ArenaKey|
                k2 != id.key && old(self).spec_lights().valid(k2)
                    ==> #[trigger] final(self).spec_lights().value_at(k2) == old(self).spec_lights().value_at(k2),
            final(self).spec_camera() == old(self).spec_camera(),
            final(self).spec_objects() == old(self).spec_objects(),
            final(self).spec_shadow_map() == old(self).spec_shadow_map(),
            final(self).spec_shadow_material() == old(self).spec_shadow_material(),
            final(self).spec_shadows_enabled() == old(self).spec_shadows_enabled(),
            final(self).spec_post_process() == old(self).spec_post_process(),
    {
        let key = self.lights.insert(light);
        LightId { key }
    }

    /// Removes the object `id` names, if it is live.  A stale or unknown
    /// identifier removes nothing and is answered with `None`; after a
    /// successful removal `id` never resolves again.
    pub fn remove(&mut self, id: ObjectId) -> (r: Option<SceneObject>)
        requires
            old(self).wf(),
        ensures
            final(self).wf(),
            old(self).spec_objects().valid(id.key) ==> (r matches Some(o) && o == old(self).spec_objects().value_at(id.key)),
            !old(self).spec_objects().valid(id.key) ==> r is None,
            !final(self).spec_objects().valid(id.key),
            old(self).spec_objects().valid(id.key) ==> final(self).spec_objects().retired(id.key),
            forall|k2: ArenaKey|
                k2 != id.key ==> (#[trigger] final(self).spec_objects().valid(k2)) == old(self).spec_objects().valid(k2),
            forall|k2: ArenaKey|
                k2 != id.key && old(self).spec_objects().valid(k2)
                    ==> #[trigger] final(self).spec_objects().value_at(k2) == old(self).spec_objects().value_at(k2),
            final(self).spec_camera() == old(self).spec_camera(),
            final(self).spec_lights() == old(self).spec_lights(),
            final(self).spec_shadow_map() == old(self).spec_shadow_map(),
            final(self).spec_shadow_material() == old(self).spec_shadow_material(),
            final(self).spec_shadows_enabled() == old(self).spec_shadows_enabled(),
            final(self).spec_post_process() == old(self).spec_post_process(),
    {
        self.objects.remove(id.key)
    }

    /// Removes the light `id` names, if it is live.
    pub fn remove_light(&mut self, id: LightId) -> (r: Option<Light>)
        requires
            old(self).wf(),
        ensures
            final(self).wf(),
            old(self).spec_lights().valid(id.key) ==> (r matches Some(l) && l == old(self).spec_lights().value_at(id.key)),
            !old(self).spec_lights().valid(id.key) ==> r is None,
            !final(self).spec_lights().valid(id.key),
            old(self).spec_lights().valid(id.key) ==> final(self).spec_lights().slots() =~= old(self).spec_lights().slots().update(id.key.index as int, None),
            !old(self).spec_lights().valid(id.key) ==> final(self).spec_lights() == old(self).spec_lights(),
            final(self).spec_camera() == old(self).spec_camera(),
            final(self).spec_objects() == old(self).spec_objects(),
            final(self).spec_shadow_map() == old(self).spec_shadow_map(),
            final(self).spec_shadow_material() == old(self).spec_shadow_material(),
            final(self).spec_shadows_enabled() == old(self).spec_shadows_enabled(),
            final(self).spec_post_process() == old(self).spec_post_process(),
    {
        self.lights.remove(id.key)
    }

    /// The object `id` names, for mutation.  The scene afterwards holds,
    /// under the same identifier, whatever the caller wrote through the
    /// returned reference; a stale or unknown identifier is answered with
    /// `None` and nothing changes.
    pub fn get_mut(&mut self, id: ObjectId) -> (r: Option<&mut SceneObject>)
        requires
            old(self).wf(),
        ensures
            final(self).wf(),
            old(self).spec_objects().valid(id.key) ==> (r matches Some(m) && *m == old(self).spec_objects().value_at(id.key) && final(self).spec_objects().valid(id.key) && final(self).spec_objects().value_at(id.key) == *final(m)),
            !old(self).spec_objects().valid(id.key) ==> r is None && final(self).spec_objects()
                == old(self).spec_objects(),
            forall|k2: ArenaKey|
                (#[trigger] final(self).spec_objects().valid(k2)) == old(self).spec_objects().valid(
                    k2,
                ),
            forall|k2: ArenaKey|
                k2 != id.key && old(self).spec_objects().valid(k2)
                    ==> #[trigger] final(self).spec_objects().value_at(k2) == old(self).spec_objects().value_at(k2),
            final(self).spec_camera() == old(self).spec_camera(),
            final(self).spec_lights() == old(self).spec_lights(),
            final(self).spec_shadow_map() == old(self).spec_shadow_map(),
            final(self).spec_shadow_material() == old(self).spec_shadow_material(),
            final(self).spec_shadows_enabled() == old(self).spec_shadows_enabled(),
            final(self).spec_post_process() == old(self).spec_post_process(),
    {
        self.objects.get_mut(id.key)
    }

    /// The light `id` names, for mutation.
    pub fn get_light_mut(&mut self, id: LightId) -> (r: Option<&mut Light>)
        requires
            old(self).wf(),
        ensures
            final(self).wf(),
            old(self).spec_lights().valid(id.key) ==> (r matches Some(m) && *m == old(self).spec_lights().value_at(id.key) && final(self).spec_lights().valid(id.key) && final(self).spec_lights().value_at(id.key) == *final(m)),
            !old(self).spec_lights().valid(id.key) ==> r is None && final(self).spec_lights()
                == old(self).spec_lights(),
            forall|k2: ArenaKey|
                (#[trigger] final(self).spec_lights().valid(k2)) == old(self).spec_lights().valid(
                    k2,
                ),
            forall|k2: ArenaKey|
                k2 != id.key && old(self).spec_lights().valid(k2)
                    ==> #[trigger] final(self).spec_lights().value_at(k2) == old(self).spec_lights().value_at(k2),
            final(self).spec_camera() == old(self).spec_camera(),
            final(self).spec_objects() == old(self).spec_objects(),
            final(self).spec_shadow_map() == old(self).spec_shadow_map(),
            final(self).spec_shadow_material() == old(self).spec_shadow_material(),
            final(self).spec_shadows_enabled() == old(self).spec_shadows_enabled(),
            final(self).spec_post_process() == old(self).spec_post_process(),
    {
        self.lights.get_mut(id.key)
    }

    /// Switches shadow rendering on.  The host has created the shadow
    /// map's framebuffer and depth texture and compiled the shared depth
    /// shader; creation or compile failure is a hard error reported there,
    /// and the shadow subsystem then simply stays disabled.  Shadows are
    /// cast from the first light with `cast_shadows` set.
    pub fn enable_shadows(&mut self, depth_program: ProgramId)
        ensures
            final(self).spec_shadows_enabled(),
            final(self).spec_shadow_map() matches Some(sm) && sm.spec_projection() is None
                && sm.spec_size() == crate::shadow::SHADOW_MAP_SIZE as int,
            final(self).spec_shadow_material() matches Some(m) && m.spec_program()
                == depth_program,
            old(self).wf() ==> final(self).wf(),
            final(self).spec_camera() == old(self).spec_camera(),
            final(self).spec_objects() == old(self).spec_objects(),
            final(self).spec_lights() == old(self).spec_lights(),
            final(self).spec_post_process() == old(self).spec_post_process(),
    {
        self.shadow_map = Some(ShadowMap::new());
        self.shadows_enabled = true;
        self.shadow_material = Some(Material::from_source(depth_program, ""));
    }

    /// The scene with shadow rendering switched off and everything else —
    /// including the retained shadow resources — as it was.
    pub closed spec fn spec_with_shadows_disabled(s: Scene) -> Scene {
        Scene { shadows_enabled: false, ..s }
    }

    /// Switches shadow rendering off.  The shadow map and depth material
    /// are retained for quick re-enabling; nothing else changes.
    pub fn disable_shadows(&mut self)
        ensures
            *final(self) == Scene::spec_with_shadows_disabled(*old(self)),
            !final(self).spec_shadows_enabled(),
            old(self).wf() ==> final(self).wf(),
    {
        self.shadows_enabled = false;
    }

    /// Disabling shadows is idempotent: a second call leaves the scene
    /// exactly as the first left it.
    pub proof fn lemma_disable_shadows_idempotent(s: Scene)
        ensures
            Scene::spec_with_shadows_disabled(Scene::spec_with_shadows_disabled(s))
                == Scene::spec_with_shadows_disabled(s),
    {
    }

    /// Sets (or replaces) the post-processing stack.
    pub fn set_post_process(&mut self, stack: PostProcessStack)
        requires
            stack.wf(),
        ensures
            final(self).spec_post_process() == Some(stack),
            old(self).wf() ==> final(self).wf(),
            final(self).spec_camera() == old(self).spec_camera(),
            final(self).spec_objects() == old(self).spec_objects(),
            final(self).spec_lights() == old(self).spec_lights(),
            final(self).spec_shadow_map() == old(self).spec_shadow_map(),
            final(self).spec_shadow_material() == old(self).spec_shadow_material(),
            final(self).spec_shadows_enabled() == old(self).spec_shadows_enabled(),
    {
        self.post_process = Some(stack);
    }

    /// Whether any live light casts shadows.
    pub fn has_shadow_casting_light(&self) -> (b: bool)
        requires
            self.wf(),
        ensures
            b == (spec_first_shadow_light(self.spec_lights().live()) is Some),
    {
        let lights = self.lights.live_values();
        first_shadow_light(lights.as_slice()).is_some()
    }
}

/// The zero vector's bit patterns.
pub open spec fn spec_zero_vec() -> Vec3Bits {
    Vec3Bits { x: F32_BITS_ZERO, y: F32_BITS_ZERO, z: F32_BITS_ZERO }
}

/// The light-space projection the shadow pass configures for the selected
/// shadow light: a directional light gets an orthographic frustum around
/// the scene origin at the fixed radius 10; a point light a perspective
/// frustum aimed at the origin (one face of a conceptual cube map, a
/// deliberate simplification) with a half-pi field of view reaching to its
/// radius; a spot light a perspective frustum along its own direction with
/// its cone angle and a fixed 50-unit reach.
pub open spec fn spec_shadow_projection_for(l: Light) -> ShadowProjection {
    match l.kind {
        LightKind::Directional => ShadowProjection::Directional {
            direction: l.direction,
            center: spec_zero_vec(),
            radius: F32_BITS_TEN,
            bounds: spec_directional_bounds(F32_BITS_TEN),
        },
        LightKind::Point { radius } => ShadowProjection::Perspective {
            position: l.position,
            aim: Aim::At(spec_zero_vec()),
            fov_y: F32_BITS_HALF_PI,
            near: F32_BITS_TENTH,
            far: radius,
        },
        LightKind::Spot { angle, .. } => ShadowProjection::Perspective {
            position: l.position,
            aim: Aim::Along(l.direction),
            fov_y: angle,
            near: F32_BITS_TENTH,
            far: F32_BITS_FIFTY,
        },
    }
}

/// The depth-only draws of the live objects in slots `pos..`: the object's
/// model matrix, then its geometry with only the position attribute.
pub open spec fn spec_depth_draws(slots: Seq<Option<SceneObject>>, pos: int) -> Seq<Cmd>
    decreases slots.len() - pos,
{
    if pos < 0 || pos >= slots.len() {
        Seq::empty()
    } else {
        let rest = spec_depth_draws(slots, pos + 1);
        match slots[pos] {
            Some(o) => seq![
                Cmd::SetMatrix {
                    slot: UniformSlot::ModelMatrix,
                    source: MatrixSource::Model(o.transform),
                },
            ] + spec_mesh_depth_cmds(o.mesh) + rest,
            None => rest,
        }
    }
}

/// The whole shadow pass: configure the selected light's projection, bind
/// and clear the shadow target, bind the one shared depth program and the
/// light-space matrix, depth-draw every live object, and restore the
/// default target.
pub open spec fn spec_shadow_pass_cmds(s: Scene, width: i32, height: i32) -> Seq<Cmd>
    recommends
        s.spec_shadow_map() is Some,
        s.spec_shadow_material() is Some,
        spec_first_shadow_light(s.spec_lights().live()) is Some,
{
    let l = spec_first_shadow_light(s.spec_lights().live())->Some_0;
    let sm = s.spec_shadow_map()->Some_0;
    let mat = s.spec_shadow_material()->Some_0;
    seq![
        Cmd::SetShadowProjection { projection: spec_shadow_projection_for(l) },
        Cmd::BindTarget {
            target: RenderTarget::ShadowBuffer,
            width: sm.spec_size(),
            height: sm.spec_size(),
        },
        Cmd::ClearDepth,
        Cmd::SetDepthTest { enabled: true },
        Cmd::ClearDepth,
        Cmd::UseProgram { program: mat.spec_program() },
        Cmd::SetMatrix { slot: UniformSlot::LightSpaceMatrix, source: MatrixSource::LightSpace },
    ] + spec_depth_draws(s.spec_objects().slots(), 0) + seq![
        Cmd::BindTarget { target: RenderTarget::Screen, width, height },
    ]
}

/// What a post-process stack's `begin` emits.
pub open spec fn spec_pp_begin_cmds(p: PostProcessStack) -> Seq<Cmd> {
    if p.spec_enabled() {
        seq![
            Cmd::BindTarget {
                target: RenderTarget::SceneBuffer,
                width: p.spec_width(),
                height: p.spec_height(),
            },
            Cmd::ClearColorAndDepth,
        ]
    } else {
        Seq::empty()
    }
}

/// Everything a frame emits before the lit object draws: aim at the scene
/// buffer (or the screen), clear to the fixed dark gray, run the shadow
/// pass when it is active — re-aiming at the scene buffer afterwards,
/// since the shadow pass restored the default target — then enable depth
/// testing and, with shadows active, bind the shadow depth texture.
pub open spec fn spec_render_prefix(s: Scene, width: i32, height: i32) -> Seq<Cmd> {
    let active = s.spec_shadows_enabled() && spec_first_shadow_light(s.spec_lights().live())
        is Some;
    let begin = match s.spec_post_process() {
        Some(p) => spec_pp_begin_cmds(p),
        None => seq![Cmd::BindTarget { target: RenderTarget::Screen, width, height }],
    };
    let clear = seq![
        Cmd::SetClearColor {
            color: Vec4Bits {
                x: F32_BITS_TENTH,
                y: F32_BITS_TENTH,
                z: F32_BITS_TENTH,
                w: F32_BITS_ONE,
            },
        },
        Cmd::ClearColorAndDepth,
    ];
    let shadow = if active {
        spec_shadow_pass_cmds(s, width, height) + (match s.spec_post_process() {
            Some(p) => spec_pp_begin_cmds(p),
            None => Seq::empty(),
        })
    } else {
        Seq::empty()
    };
    let depth_on = seq![Cmd::SetDepthTest { enabled: true }];
    let bind_tex = if active {
        seq![Cmd::BindTexture { unit: 0, texture: TextureRole::ShadowDepth }]
    } else {
        Seq::empty()
    };
    begin + clear + shadow + depth_on + bind_tex
}

/// Number of commands preceding one lit object draw: binding the program
/// and the shadow flag, plus the light-space matrix and sampler when
/// shadows are active.
pub open spec fn lit_object_pre_len(active: bool) -> int {
    if active {
        4
    } else {
        2
    }
}

/// Number of commands one lit object draw emits.
pub open spec fn lit_object_len(o: SceneObject, active: bool, camera: Camera, lights: Seq<Light>) -> int {
    lit_object_pre_len(active) + mesh_draw_len(o.mesh, o.transform, camera, lights)
}

/// Whether `cmds` is exactly one object's lit draw: bind its program,
/// upload whether shadows are on — and, when they are, the light-space
/// matrix and the shadow sampler unit — then the mesh's full draw.
pub open spec fn is_lit_object_draw(
    cmds: Seq<Cmd>,
    o: SceneObject,
    active: bool,
    camera: Camera,
    lights: Seq<Light>,
) -> bool {
    &&& cmds.len() == lit_object_len(o, active, camera, lights)
    &&& cmds[0] == (Cmd::UseProgram { program: o.mesh.spec_material().spec_program() })
    &&& cmds[1] == (Cmd::SetUniform {
        slot: UniformSlot::ShadowsEnabled,
        value: UniformValue::Int(
            if active {
                1
            } else {
                0
            },
        ),
    })
    &&& active ==> cmds[2] == (Cmd::SetMatrix {
        slot: UniformSlot::LightSpaceMatrix,
        source: MatrixSource::LightSpace,
    }) && cmds[3] == (Cmd::SetUniform {
        slot: UniformSlot::ShadowSampler,
        value: UniformValue::Int(0),
    })
    &&& is_mesh_draw(cmds.skip(lit_object_pre_len(active)), o.mesh, o.transform, camera, lights)
}

/// Number of commands the lit draws of the live objects in slots `pos..`
/// emit.
pub open spec fn lit_draws_len(
    slots: Seq<Option<SceneObject>>,
    pos: int,
    active: bool,
    camera: Camera,
    lights: Seq<Light>,
) -> int
    decreases slots.len() - pos,
{
    if pos < 0 || pos >= slots.len() {
        0
    } else {
        let rest = lit_draws_len(slots, pos + 1, active, camera, lights);
        match slots[pos] {
            Some(o) => lit_object_len(o, active, camera, lights) + rest,
            None => rest,
        }
    }
}

/// The lit draws never emit a negative number of commands.
pub proof fn lemma_lit_draws_len_nonneg(
    slots: Seq<Option<SceneObject>>,
    pos: int,
    active: bool,
    camera: Camera,
    lights: Seq<Light>,
)
    ensures
        lit_draws_len(slots, pos, active, camera, lights) >= 0,
    decreases slots.len() - pos,
{
    if 0 <= pos < slots.len() {
        lemma_lit_draws_len_nonneg(slots, pos + 1, active, camera, lights);
    }
}

/// Whether `cmds` is exactly the lit draws of the live objects in slots
/// `pos..`, in slot-index order.
pub open spec fn is_lit_draws(
    cmds: Seq<Cmd>,
    slots: Seq<Option<SceneObject>>,
    pos: int,
    active: bool,
    camera: Camera,
    lights: Seq<Light>,
) -> bool
    decreases slots.len() - pos,
{
    if pos < 0 || pos >= slots.len() {
        cmds.len() == 0
    } else {
        &&& cmds.len() == lit_draws_len(slots, pos, active, camera, lights)
        &&& match slots[pos] {
            Some(o) => {
                let head_len = lit_object_len(o, active, camera, lights);
                &&& is_lit_object_draw(cmds.take(head_len), o, active, camera, lights)
                &&& is_lit_draws(cmds.skip(head_len), slots, pos + 1, active, camera, lights)
            },
            None => is_lit_draws(cmds, slots, pos + 1, active, camera, lights),
        }
    }
}

/// The lit draws' command count is what [`lit_draws_len`] says.
pub proof fn lemma_lit_draws_len(
    cmds: Seq<Cmd>,
    slots: Seq<Option<SceneObject>>,
    pos: int,
    active: bool,
    camera: Camera,
    lights: Seq<Light>,
)
    requires
        is_lit_draws(cmds, slots, pos, active, camera, lights),
    ensures
        cmds.len() == lit_draws_len(slots, pos, active, camera, lights),
    decreases slots.len() - pos,
{
}

/// Whether `cmds` is exactly one frame of the scene: the prefix (targets,
/// clears and the shadow pass), the lit draws of every live object in
/// table order, and — when a post-process stack is set — its resolve.
pub open spec fn is_scene_render(cmds: Seq<Cmd>, s: Scene, width: i32, height: i32, time: u32) -> bool {
    let active = s.spec_shadows_enabled() && spec_first_shadow_light(s.spec_lights().live())
        is Some;
    let lights = s.spec_lights().live();
    let prefix = spec_render_prefix(s, width, height);
    let lit_len = lit_draws_len(s.spec_objects().slots(), 0, active, s.spec_camera(), lights);
    &&& cmds.len() == prefix.len() + lit_len + (match s.spec_post_process() {
        Some(p) => resolve_cmds_len(p.spec_effects(), p.spec_enabled()),
        None => 0,
    })
    &&& cmds.take(prefix.len() as int) == prefix
    &&& is_lit_draws(
        cmds.subrange(prefix.len() as int, prefix.len() + lit_len),
        s.spec_objects().slots(),
        0,
        active,
        s.spec_camera(),
        lights,
    )
    &&& match s.spec_post_process() {
        Some(p) => is_resolve(
            cmds.skip(prefix.len() + lit_len),
            p.spec_effects(),
            p.spec_enabled(),
            p.spec_current(),
            p.spec_width(),
            p.spec_height(),
            time,
        ),
        None => true,
    }
}

/// Emits the depth-only draws of the live objects in slots `pos..`.
fn emit_depth_draws(objects: &Arena<SceneObject>, pos: usize) -> (cmds: Vec<Cmd>)
    requires
        pos <= objects.slots().len(),
    ensures
        cmds@ =~= spec_depth_draws(objects.slots(), pos as int),
    decreases objects.slots().len() - pos,
{
    if pos == objects.slot_count() {
        Vec::new()
    } else {
        match objects.entry_at(pos) {
            Some(o) => {
                let mut cmds: Vec<Cmd> = Vec::new();
                cmds.push(
                    Cmd::SetMatrix {
                        slot: UniformSlot::ModelMatrix,
                        source: MatrixSource::Model(o.transform),
                    },
                );
                let mut geom = o.mesh.draw_depth_only();
                cmds.append(&mut geom);
                let mut rest = emit_depth_draws(objects, pos + 1);
                cmds.append(&mut rest);
                cmds
            },
            None => emit_depth_draws(objects, pos + 1),
        }
    }
}

/// Emits the lit draws of the live objects in slots `pos..`.
fn emit_lit_draws(
    objects: &Arena<SceneObject>,
    pos: usize,
    active: bool,
    camera: &Camera,
    lights: &[Light],
) -> (cmds: Vec<Cmd>)
    requires
        pos <= objects.slots().len(),
    ensures
        is_lit_draws(cmds@, objects.slots(), pos as int, active, *camera, lights@),
    decreases objects.slots().len() - pos,
{
    if pos == objects.slot_count() {
        Vec::new()
    } else {
        match objects.entry_at(pos) {
            Some(o) => {
                let mut cmds: Vec<Cmd> = Vec::new();
                cmds.push(Cmd::UseProgram { program: o.mesh.material().program() });
                cmds.push(
                    Cmd::SetUniform {
                        slot: UniformSlot::ShadowsEnabled,
                        value: UniformValue::Int(
                            if active {
                                1
                            } else {
                                0
                            },
                        ),
                    },
                );
                if active {
                    cmds.push(
                        Cmd::SetMatrix {
                            slot: UniformSlot::LightSpaceMatrix,
                            source: MatrixSource::LightSpace,
                        },
                    );
                    cmds.push(
                        Cmd::SetUniform {
                            slot: UniformSlot::ShadowSampler,
                            value: UniformValue::Int(0),
                        },
                    );
                }
                let mut draw = o.mesh.draw(&o.transform, camera, lights);
                let ghost draw_seq = draw@;
                cmds.append(&mut draw);
                let ghost head_seq = cmds@;
                let mut rest = emit_lit_draws(objects, pos + 1, active, camera, lights);
                let ghost rest_seq = rest@;
                cmds.append(&mut rest);
                proof {
                    let slots = objects.slots();
                    let o_spec = slots[pos as int]->Some_0;
                    let head_len = lit_object_len(o_spec, active, *camera, lights@);
                    lemma_lit_draws_len_nonneg(slots, pos + 1, active, *camera, lights@);
                    lemma_lit_draws_len(rest_seq, slots, pos + 1, active, *camera, lights@);
                    assert(head_seq.len() == head_len);
                    assert(cmds@.take(head_len) =~= head_seq);
                    assert(cmds@.skip(head_len) =~= rest_seq);
                    assert(head_seq.skip(lit_object_pre_len(active)) =~= draw_seq);
                    assert(is_lit_object_draw(head_seq, o_spec, active, *camera, lights@));
                }
                cmds
            },
            None => {
                let cmds = emit_lit_draws(objects, pos + 1, active, camera, lights);
                proof {
                    lemma_lit_draws_len(
                        cmds@,
                        objects.slots(),
                        pos + 1,
                        active,
                        *camera,
                        lights@,
                    );
                }
                cmds
            },
        }
    }
}

impl Scene {
    /// Emits the shadow depth pass for `light`, the scene's selected
    /// shadow light, and records its projection in the shadow map.
    fn shadow_pass_cmds(&mut self, light: Light, width: i32, height: i32) -> (cmds: Vec<Cmd>)
        requires
            old(self).wf(),
            old(self).spec_shadow_map() is Some,
            old(self).spec_shadow_material() is Some,
            spec_first_shadow_light(old(self).spec_lights().live()) == Some(light),
            light.kind is Directional ==> f32_bits_times4_ok(F32_BITS_TEN),
        ensures
            final(self).wf(),
            cmds@ =~= spec_shadow_pass_cmds(*old(self), width, height),
            final(self).spec_shadow_map() matches Some(sm) && sm.spec_size() == old(
                self,
            ).spec_shadow_map()->Some_0.spec_size() && sm.spec_projection() == Some(
                spec_shadow_projection_for(light),
            ),
            final(self).spec_camera() == old(self).spec_camera(),
            final(self).spec_objects() == old(self).spec_objects(),
            final(self).spec_lights() == old(self).spec_lights(),
            final(self).spec_shadow_material() == old(self).spec_shadow_material(),
            final(self).spec_shadows_enabled() == old(self).spec_shadows_enabled(),
            final(self).spec_post_process() == old(self).spec_post_process(),
    {
        let mut cmds: Vec<Cmd> = Vec::new();
        match (&mut self.shadow_map, &self.shadow_material) {
            (Some(sm), Some(mat)) => {
                match light.kind {
                    LightKind::Directional => {
                        sm.update_directional(light.direction, Vec3Bits::zero(), F32_BITS_TEN);
                    },
                    LightKind::Point { radius } => {
                        sm.update_point(
                            light.position,
                            Vec3Bits::zero(),
                            F32_BITS_HALF_PI,
                            F32_BITS_TENTH,
                            radius,
                        );
                    },
                    LightKind::Spot { angle, .. } => {
                        sm.update_point_toward(
                            light.position,
                            light.direction,
                            angle,
                            F32_BITS_TENTH,
                            F32_BITS_FIFTY,
                        );
                    },
                }
                let projection = sm.projection();
                cmds.push(Cmd::SetShadowProjection { projection: projection.unwrap() });
                let mut b = sm.bind();
                cmds.append(&mut b);
                cmds.push(Cmd::SetDepthTest { enabled: true });
                cmds.push(Cmd::ClearDepth);
                cmds.push(Cmd::UseProgram { program: mat.program() });
                cmds.push(
                    Cmd::SetMatrix {
                        slot: UniformSlot::LightSpaceMatrix,
                        source: MatrixSource::LightSpace,
                    },
                );
                let mut draws = emit_depth_draws(&self.objects, 0);
                cmds.append(&mut draws);
                let mut u = sm.unbind(width, height);
                cmds.append(&mut u);
            },
            _ => {
                proof {
                    assert(false);
                }
            },
        }
        cmds
    }

    /// Emits one frame (see [`is_scene_render`]): aim at the scene buffer
    /// or the screen and clear; when shadows are enabled and a
    /// shadow-casting light exists, run the shadow pass from the first
    /// such light and re-aim; draw every live object in table order with
    /// the lights — of which at most the first four are uploaded — and,
    /// when a post-process stack is set, resolve it through its enabled
    /// effects onto the screen.
    pub fn render(&mut self, width: i32, height: i32, time: u32) -> (cmds: Vec<Cmd>)
        requires
            old(self).wf(),
        ensures
            final(self).wf(),
            is_scene_render(cmds@, *old(self), width, height, time),
            final(self).spec_camera() == old(self).spec_camera(),
            final(self).spec_objects() == old(self).spec_objects(),
            final(self).spec_lights() == old(self).spec_lights(),
            final(self).spec_shadow_material() == old(self).spec_shadow_material(),
            final(self).spec_shadows_enabled() == old(self).spec_shadows_enabled(),
            old(self).spec_post_process() is None ==> final(self).spec_post_process() is None,
            old(self).spec_post_process() matches Some(p) ==> (final(self).spec_post_process()
                matches Some(p2) && p2.spec_effects() == p.spec_effects() && p2.spec_width()
                == p.spec_width() && p2.spec_height() == p.spec_height() && p2.spec_enabled()
                == p.spec_enabled() && p2.spec_current() == if p.spec_enabled() {
                spec_flip_n(p.spec_current(), enabled_views(p.spec_effects()).len())
            } else {
                p.spec_current()
            }),
            (old(self).spec_shadows_enabled() && spec_first_shadow_light(
                old(self).spec_lights().live(),
            ) is Some) ==> (final(self).spec_shadow_map() matches Some(sm) && sm.spec_size()
                == old(self).spec_shadow_map()->Some_0.spec_size() && sm.spec_projection()
                == Some(
                spec_shadow_projection_for(
                    spec_first_shadow_light(old(self).spec_lights().live())->Some_0,
                ),
            )),
            !(old(self).spec_shadows_enabled() && spec_first_shadow_light(
                old(self).spec_lights().live(),
            ) is Some) ==> final(self).spec_shadow_map() == old(self).spec_shadow_map(),
    {
        proof {
            // The fixed directional shadow radius is a positive normal
            // value whose exponent leaves room to scale it by four.
            assert(0x4120_0000u32 < 0x8000_0000 && 1 <= (0x4120_0000u32 >> 23) & 0xFF && ((
            0x4120_0000u32 >> 23) & 0xFF) <= 0xFC) by (bit_vector);
            assert(f32_bits_times4_ok(F32_BITS_TEN));
        }
        let ghost s0 = *old(self);
        let mut cmds: Vec<Cmd> = Vec::new();
        match &self.post_process {
            Some(p) => {
                let mut b = p.begin();
                cmds.append(&mut b);
            },
            None => {
                cmds.push(Cmd::BindTarget { target: RenderTarget::Screen, width, height });
            },
        }
        cmds.push(
            Cmd::SetClearColor {
                color: Vec4Bits {
                    x: F32_BITS_TENTH,
                    y: F32_BITS_TENTH,
                    z: F32_BITS_TENTH,
                    w: F32_BITS_ONE,
                },
            },
        );
        cmds.push(Cmd::ClearColorAndDepth);
        let lights_vec = self.lights.live_values();
        let shadow_light = first_shadow_light(lights_vec.as_slice());
        let shadows_active = self.shadows_enabled && shadow_light.is_some();
        if shadows_active {
            let mut sp = self.shadow_pass_cmds(shadow_light.unwrap(), width, height);
            cmds.append(&mut sp);
            match &self.post_process {
                Some(p) => {
                    let mut b = p.begin();
                    cmds.append(&mut b);
                },
                None => {},
            }
        }
        cmds.push(Cmd::SetDepthTest { enabled: true });
        if shadows_active {
            match &self.shadow_map {
                Some(sm) => {
                    let mut t = sm.bind_texture(0);
                    cmds.append(&mut t);
                },
                None => {
                    proof {
                        assert(false);
                    }
                },
            }
        }
        let ghost prefix_len = cmds@.len() as int;
        let mut lit = emit_lit_draws(
            &self.objects,
            0,
            shadows_active,
            &self.camera,
            lights_vec.as_slice(),
        );
        let ghost lit_seq = lit@;
        cmds.append(&mut lit);
        proof {
            lemma_lit_draws_len(
                lit_seq,
                s0.spec_objects().slots(),
                0,
                s0.spec_shadows_enabled() && spec_first_shadow_light(s0.spec_lights().live())
                    is Some,
                s0.spec_camera(),
                s0.spec_lights().live(),
            );
            assert(cmds@.take(prefix_len) =~= spec_render_prefix(s0, width, height));
            assert(cmds@.subrange(prefix_len, cmds@.len() as int) =~= lit_seq);
        }
        match &mut self.post_process {
            Some(p) => {
                let mut e = p.end(time);
                let ghost e_seq = e@;
                let ghost before_len = cmds@.len() as int;
                cmds.append(&mut e);
                proof {
                    assert(cmds@.skip(before_len) =~= e_seq);
                    assert(cmds@.take(prefix_len) =~= spec_render_prefix(s0, width, height));
                    assert(cmds@.subrange(prefix_len, before_len) =~= lit_seq);
                }
            },
            None => {},
        }
        cmds
    }
}

} // verus!
