use oxgl::{
    str_contains, AttributeInfo, AttributeSlot, BufferId, Cmd, Light, Material, Mesh, ProgramId,
    UniformSlot, UniformValue, Vec3Bits,
};

#[test]
fn needs_normals_follows_vertex_source() {
    let lit = "attribute vec3 position;\nattribute vec3 normal;\nvoid main() {}";
    let unlit = "attribute vec3 position;\nvoid main() {}";
    assert!(Material::from_source(ProgramId { id: 1 }, lit).needs_normals());
    assert!(!Material::from_source(ProgramId { id: 1 }, unlit).needs_normals());
}

#[test]
fn substring_search() {
    assert!(str_contains("attribute vec3 normal", "attribute vec3 normal"));
    assert!(str_contains("xxattribute vec3 normalyy", "attribute vec3 normal"));
    assert!(!str_contains("attribute vec3 norma", "attribute vec3 normal"));
    assert!(str_contains("anything", ""));
    assert!(str_contains("", ""));
    assert!(!str_contains("", "a"));
    assert!(!str_contains("aba", "ab a"));
    assert!(str_contains("aaab", "aab"));
    // multi-byte characters shift byte offsets but not character positions
    assert!(str_contains("caf\u{e9} normal", "normal"));
    assert!(!str_contains("caf\u{e9}", "cafe"));
}

#[test]
fn uniform_table_last_write_wins_in_place() {
    let mut m = Material::from_source(ProgramId { id: 1 }, "");
    m.set_float("shininess", 32.0f32.to_bits());
    m.set_color(1.0f32.to_bits(), 0.0f32.to_bits(), 0.0f32.to_bits());
    m.set_float("shininess", 64.0f32.to_bits());
    let cmds = m.upload_cmds();
    assert_eq!(cmds.len(), 2);
    assert_eq!(
        cmds[0],
        Cmd::SetUniform {
            slot: UniformSlot::Named("shininess".to_string()),
            value: UniformValue::Float(64.0f32.to_bits()),
        }
    );
    assert_eq!(
        cmds[1],
        Cmd::SetUniform {
            slot: UniformSlot::Named("color".to_string()),
            value: UniformValue::Vec3(Vec3Bits {
                x: 1.0f32.to_bits(),
                y: 0.0f32.to_bits(),
                z: 0.0f32.to_bits(),
            }),
        }
    );
}

#[test]
fn apply_uploads_table_then_lights() {
    let mut m = Material::from_source(ProgramId { id: 1 }, "");
    m.set_float("ambient", 0.1f32.to_bits());
    let lights = vec![Light::directional(
        Vec3Bits::zero(),
        Vec3Bits::zero(),
        1.0f32.to_bits(),
    )];
    let cmds = m.apply(&lights);
    // one table entry, then the count uniform, then one light of six values
    assert_eq!(cmds.len(), 1 + 1 + 6);
    assert!(matches!(
        &cmds[0],
        Cmd::SetUniform {
            slot: UniformSlot::Named(_),
            ..
        }
    ));
    assert_eq!(
        cmds[1],
        Cmd::SetUniform {
            slot: UniformSlot::NumLights,
            value: UniformValue::Int(1),
        }
    );
}

#[test]
fn color_setters_overwrite_one_slot() {
    let mut m = Material::from_source(ProgramId { id: 1 }, "");
    m.set_color(1.0f32.to_bits(), 0.0f32.to_bits(), 0.0f32.to_bits());
    m.set_color4(
        0.0f32.to_bits(),
        1.0f32.to_bits(),
        0.0f32.to_bits(),
        0.5f32.to_bits(),
    );
    let cmds = m.upload_cmds();
    assert_eq!(cmds.len(), 1);
    assert!(matches!(
        &cmds[0],
        Cmd::SetUniform {
            value: UniformValue::Vec4(_),
            ..
        }
    ));
}

#[test]
fn mesh_strides_follow_vertex_layout() {
    let plain = Mesh::new(
        BufferId { id: 1 },
        3,
        Material::from_source(ProgramId { id: 1 }, ""),
    );
    let lit = Mesh::with_normals(
        BufferId { id: 2 },
        3,
        Material::from_source(ProgramId { id: 1 }, ""),
    );
    let plain_cmds = plain.draw_depth_only();
    assert_eq!(
        plain_cmds[1],
        Cmd::EnableAttribute {
            slot: AttributeSlot::Position,
            info: AttributeInfo {
                size: 3,
                stride: 12,
                offset: 0,
            },
        }
    );
    let lit_cmds = lit.draw_depth_only();
    assert_eq!(
        lit_cmds[1],
        Cmd::EnableAttribute {
            slot: AttributeSlot::Position,
            info: AttributeInfo {
                size: 3,
                stride: 24,
                offset: 0,
            },
        }
    );
    // The depth-only path never binds the normal attribute.
    assert_eq!(lit_cmds.len(), 3);
}
