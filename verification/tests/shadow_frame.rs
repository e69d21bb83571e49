use oxgl::{
    Animator, BufferId, Camera, Cmd, Light, Material, Mesh, PostProcessStack, Primitive,
    ProgramId, RenderTarget, Scene, ShadowMap, ShadowProjection, TextureRole, Transform3D,
    Vec3Bits, SHADOW_MAP_SIZE,
};

fn down() -> Vec3Bits {
    Vec3Bits {
        x: 0.0f32.to_bits(),
        y: (-1.0f32).to_bits(),
        z: 0.0f32.to_bits(),
    }
}

#[test]
fn directional_projection_covers_depth_span() {
    let mut sm = ShadowMap::new();
    assert!(sm.projection().is_none());
    assert_eq!(sm.size(), SHADOW_MAP_SIZE);
    sm.update_directional(down(), Vec3Bits::zero(), 10.0f32.to_bits());
    match sm.projection().expect("configured") {
        ShadowProjection::Directional {
            direction,
            center,
            radius,
            bounds,
        } => {
            assert_eq!(direction, down());
            assert_eq!(center, Vec3Bits::zero());
            assert_eq!(f32::from_bits(radius), 10.0);
            assert_eq!(f32::from_bits(bounds.left), -10.0);
            assert_eq!(f32::from_bits(bounds.right), 10.0);
            assert_eq!(f32::from_bits(bounds.bottom), -10.0);
            assert_eq!(f32::from_bits(bounds.top), 10.0);
            assert_eq!(f32::from_bits(bounds.near), 0.1);
            assert_eq!(f32::from_bits(bounds.far), 40.0);
            // The depth span covers at least [0.1, 4 * radius].
            assert!(f32::from_bits(bounds.near) <= 0.1);
            assert!(f32::from_bits(bounds.far) >= 4.0 * 10.0);
        }
        other => panic!("expected a directional projection, got {:?}", other),
    }
}

#[test]
fn shadow_map_bind_cycle() {
    let mut sm = ShadowMap::new();
    sm.update_point(
        Vec3Bits::zero(),
        Vec3Bits::zero(),
        1.0f32.to_bits(),
        0.1f32.to_bits(),
        25.0f32.to_bits(),
    );
    assert_eq!(
        sm.bind(),
        vec![
            Cmd::BindTarget {
                target: RenderTarget::ShadowBuffer,
                width: SHADOW_MAP_SIZE,
                height: SHADOW_MAP_SIZE,
            },
            Cmd::ClearDepth,
        ]
    );
    assert_eq!(
        sm.unbind(800, 600),
        vec![Cmd::BindTarget {
            target: RenderTarget::Screen,
            width: 800,
            height: 600,
        }]
    );
    assert_eq!(
        sm.bind_texture(0),
        vec![Cmd::BindTexture {
            unit: 0,
            texture: TextureRole::ShadowDepth,
        }]
    );
}

fn demo_scene(with_pp: bool) -> Scene {
    let mut scene = Scene::new(Camera::new(1.0f32.to_bits()));
    let material = Material::from_source(
        ProgramId { id: 1 },
        "attribute vec3 position;\nattribute vec3 normal;",
    );
    let cube = Mesh::with_normals(BufferId { id: 1 }, Primitive::Cube.vertex_count(), material);
    scene.add(cube, Transform3D::new());
    scene.add_light(
        Light::directional(down(), Vec3Bits::zero(), 1.0f32.to_bits()).with_shadows(true),
    );
    if with_pp {
        scene.set_post_process(PostProcessStack::new(800, 600));
    }
    scene
}

#[test]
fn frame_without_post_process_aims_at_screen() {
    let mut scene = demo_scene(false);
    let cmds = scene.render(800, 600, 0);
    assert_eq!(
        cmds[0],
        Cmd::BindTarget {
            target: RenderTarget::Screen,
            width: 800,
            height: 600,
        }
    );
    // No shadow pass: shadows were never enabled.
    assert!(cmds
        .iter()
        .all(|c| !matches!(c, Cmd::SetShadowProjection { .. })));
    // Exactly one object is drawn, as one triangle list.
    let draws = cmds
        .iter()
        .filter(|c| matches!(c, Cmd::DrawTriangles { .. }))
        .count();
    assert_eq!(draws, 1);
}

#[test]
fn frame_with_shadows_runs_depth_pass_first() {
    let mut scene = demo_scene(false);
    scene.enable_shadows(ProgramId { id: 99 });
    let cmds = scene.render(800, 600, 0);
    // The cube is drawn twice: once into the shadow map, once lit.
    let draws = cmds
        .iter()
        .filter(|c| matches!(c, Cmd::DrawTriangles { .. }))
        .count();
    assert_eq!(draws, 2);
    let shadow_bind = cmds
        .iter()
        .position(|c| {
            matches!(
                c,
                Cmd::BindTarget {
                    target: RenderTarget::ShadowBuffer,
                    ..
                }
            )
        })
        .expect("the shadow target is bound");
    let lit_tex_bind = cmds
        .iter()
        .position(|c| {
            matches!(
                c,
                Cmd::BindTexture {
                    texture: TextureRole::ShadowDepth,
                    ..
                }
            )
        })
        .expect("the shadow texture is sampled");
    assert!(shadow_bind < lit_tex_bind);
}

#[test]
fn frame_with_post_process_aims_at_scene_buffer_and_resolves() {
    let mut scene = demo_scene(true);
    let cmds = scene.render(800, 600, 0);
    assert_eq!(
        cmds[0],
        Cmd::BindTarget {
            target: RenderTarget::SceneBuffer,
            width: 800,
            height: 600,
        }
    );
    // An empty enabled stack resolves as a pure blit to the screen.
    assert_eq!(
        &cmds[cmds.len() - 3..],
        &[
            Cmd::SetDepthTest { enabled: false },
            Cmd::BlitScene {
                to: RenderTarget::Screen
            },
            Cmd::SetDepthTest { enabled: true },
        ]
    );
}

#[test]
fn disable_shadows_twice_equals_once() {
    let mut once = demo_scene(false);
    once.enable_shadows(ProgramId { id: 99 });
    once.disable_shadows();

    let mut twice = demo_scene(false);
    twice.enable_shadows(ProgramId { id: 99 });
    twice.disable_shadows();
    twice.disable_shadows();

    assert_eq!(once.render(800, 600, 0), twice.render(800, 600, 0));
}

#[test]
fn missing_shadow_caster_skips_the_pass() {
    let mut scene = Scene::new(Camera::new(1.0f32.to_bits()));
    scene.add_light(Light::directional(down(), Vec3Bits::zero(), 1.0f32.to_bits()));
    scene.enable_shadows(ProgramId { id: 99 });
    assert!(!scene.has_shadow_casting_light());
    let cmds = scene.render(640, 480, 0);
    assert!(cmds
        .iter()
        .all(|c| !matches!(c, Cmd::SetShadowProjection { .. })));
}

#[test]
fn animator_stops_the_loop() {
    let mut a = Animator::start();
    assert!(a.is_running());
    a.stop();
    assert!(!a.is_running());
    a.stop();
    assert!(!a.is_running());
}

#[test]
fn primitive_vertex_counts() {
    assert_eq!(Primitive::Triangle.vertex_count(), 3);
    assert_eq!(Primitive::Quad.vertex_count(), 6);
    assert_eq!(Primitive::Cube.vertex_count(), 36);
}

#[test]
fn camera_defaults() {
    let cam = Camera::new((16.0f32 / 9.0).to_bits());
    assert_eq!(f32::from_bits(cam.position.z), 3.0);
    assert_eq!(f32::from_bits(cam.fov_y), std::f32::consts::FRAC_PI_4);
    assert_eq!(f32::from_bits(cam.near), 0.1);
    assert_eq!(f32::from_bits(cam.far), 100.0);
    assert_eq!(f32::from_bits(cam.aspect), 16.0 / 9.0);
    let moved = cam.with_position(Vec3Bits {
        x: 1.0f32.to_bits(),
        y: 0,
        z: 0,
    });
    assert_eq!(f32::from_bits(moved.position.x), 1.0);
}

#[test]
fn removed_objects_are_not_drawn() {
    let mut scene = demo_scene(false);
    let material = Material::from_source(ProgramId { id: 2 }, "attribute vec3 position;");
    let second = scene.add(
        Mesh::new(BufferId { id: 2 }, 3, material),
        Transform3D::new(),
    );
    let two = scene.render(800, 600, 0);
    assert_eq!(
        two.iter()
            .filter(|c| matches!(c, Cmd::DrawTriangles { .. }))
            .count(),
        2
    );
    scene.remove(second);
    let one = scene.render(800, 600, 0);
    assert_eq!(
        one.iter()
            .filter(|c| matches!(c, Cmd::DrawTriangles { .. }))
            .count(),
        1
    );
}

#[test]
fn directional_projection_places_virtual_light_above_center() {
    // The host derives the light position from the carried projection as
    // `center - normalize(direction) * radius * 2`; for a straight-down
    // direction and radius 10 the virtual light must sit 20 units above
    // the scene center, along +Y.
    let mut sm = ShadowMap::new();
    sm.update_directional(down(), Vec3Bits::zero(), 10.0f32.to_bits());
    match sm.projection().unwrap() {
        ShadowProjection::Directional {
            direction,
            center,
            radius,
            ..
        } => {
            let dir = glam::Vec3::new(
                f32::from_bits(direction.x),
                f32::from_bits(direction.y),
                f32::from_bits(direction.z),
            );
            let center = glam::Vec3::new(
                f32::from_bits(center.x),
                f32::from_bits(center.y),
                f32::from_bits(center.z),
            );
            let light_pos = center - dir.normalize() * f32::from_bits(radius) * 2.0;
            assert_eq!(light_pos, glam::Vec3::new(0.0, 20.0, 0.0));
            assert!(light_pos.y > center.y);
        }
        other => panic!("expected a directional projection, got {:?}", other),
    }
}
