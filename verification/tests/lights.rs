use oxgl::{
    apply_lights, first_shadow_light, Camera, Cmd, Light, LightField, ProgramId, Scene,
    ShadowProjection, UniformSlot, UniformValue, Vec3Bits, MAX_LIGHTS,
};

fn unit_y() -> Vec3Bits {
    Vec3Bits {
        x: 0,
        y: 1.0f32.to_bits(),
        z: 0,
    }
}

fn white() -> Vec3Bits {
    Vec3Bits {
        x: 1.0f32.to_bits(),
        y: 1.0f32.to_bits(),
        z: 1.0f32.to_bits(),
    }
}

fn directional(intensity: f32) -> Light {
    Light::directional(unit_y(), white(), intensity.to_bits())
}

#[test]
fn light_count_uniform_is_exact_up_to_four() {
    for n in 0..=MAX_LIGHTS {
        let lights: Vec<Light> = (0..n).map(|i| directional(i as f32)).collect();
        let cmds = apply_lights(&lights);
        assert_eq!(
            cmds[0],
            Cmd::SetUniform {
                slot: UniformSlot::NumLights,
                value: UniformValue::Int(n as i32),
            }
        );
        assert_eq!(cmds.len(), 1 + 6 * n);
    }
}

#[test]
fn lights_beyond_four_are_dropped_silently() {
    let lights: Vec<Light> = (0..6).map(|i| directional(i as f32)).collect();
    let cmds = apply_lights(&lights);
    assert_eq!(
        cmds[0],
        Cmd::SetUniform {
            slot: UniformSlot::NumLights,
            value: UniformValue::Int(4),
        }
    );
    assert_eq!(cmds.len(), 1 + 6 * 4);
    for cmd in &cmds {
        if let Cmd::SetUniform {
            slot: UniformSlot::LightEntry { index, field },
            value,
        } = cmd
        {
            assert!(*index < MAX_LIGHTS);
            if *field == LightField::Intensity {
                assert_eq!(*value, UniformValue::Float((*index as f32).to_bits()));
            }
        }
    }
}

#[test]
fn light_type_tags_and_radius() {
    let d = directional(1.0);
    let p = Light::point(unit_y(), white(), 1.0f32.to_bits(), 7.0f32.to_bits());
    let s = Light::spot(
        unit_y(),
        unit_y(),
        white(),
        1.0f32.to_bits(),
        0.5f32.to_bits(),
        0.6f32.to_bits(),
    );
    assert_eq!(d.type_id(), 0);
    assert_eq!(p.type_id(), 1);
    assert_eq!(s.type_id(), 2);
    assert_eq!(d.radius_bits(), 0.0f32.to_bits());
    assert_eq!(p.radius_bits(), 7.0f32.to_bits());
    assert_eq!(s.radius_bits(), 0.0f32.to_bits());
    assert!(!d.cast_shadows);
    assert!(d.with_shadows(true).cast_shadows);
}

#[test]
fn shadow_light_selection_takes_first_caster() {
    let a = directional(1.0);
    let b = Light::point(unit_y(), white(), 2.0f32.to_bits(), 9.0f32.to_bits()).with_shadows(true);
    let c = Light::spot(
        unit_y(),
        unit_y(),
        white(),
        3.0f32.to_bits(),
        0.5f32.to_bits(),
        0.6f32.to_bits(),
    )
    .with_shadows(true);
    let selected = first_shadow_light(&[a, b, c]).expect("a caster exists");
    assert_eq!(selected.intensity, 2.0f32.to_bits());
    assert!(first_shadow_light(&[a]).is_none());
}

#[test]
fn scene_shadow_pass_uses_first_caster() {
    let mut scene = Scene::new(Camera::new(1.0f32.to_bits()));
    let a = directional(1.0);
    let b_pos = Vec3Bits {
        x: 4.0f32.to_bits(),
        y: 5.0f32.to_bits(),
        z: 6.0f32.to_bits(),
    };
    let b = Light::point(b_pos, white(), 2.0f32.to_bits(), 9.0f32.to_bits()).with_shadows(true);
    let c = directional(3.0).with_shadows(true);
    scene.add_light(a);
    scene.add_light(b);
    scene.add_light(c);
    scene.enable_shadows(ProgramId { id: 42 });
    assert!(scene.has_shadow_casting_light());
    let cmds = scene.render(800, 600, 0);
    let projections: Vec<&ShadowProjection> = cmds
        .iter()
        .filter_map(|c| match c {
            Cmd::SetShadowProjection { projection } => Some(projection),
            _ => None,
        })
        .collect();
    assert_eq!(projections.len(), 1);
    match projections[0] {
        ShadowProjection::Perspective { position, .. } => {
            // The point light B, not the directional C added after it.
            assert_eq!(*position, b_pos);
        }
        other => panic!("expected the point light's projection, got {:?}", other),
    }
}
