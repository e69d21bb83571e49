use oxgl::{
    AttributeInfo, AttributeSlot, BufferRole, Cmd, PingSlot, PostProcessEffect, PostProcessStack,
    ProgramId, RenderTarget, TextureRole, UniformSlot, UniformValue,
};

fn effect(id: u32) -> PostProcessEffect {
    PostProcessEffect::new(ProgramId { id })
}

fn bound_programs(cmds: &[Cmd]) -> Vec<u32> {
    cmds.iter()
        .filter_map(|c| match c {
            Cmd::UseProgram { program } => Some(program.id),
            _ => None,
        })
        .collect()
}

/// One full pass over an effect with an empty uniform table.
fn expected_pass(id: u32, input: PingSlot, target: RenderTarget, w: i32, h: i32, t: u32) -> Vec<Cmd> {
    vec![
        Cmd::BindTarget {
            target,
            width: w,
            height: h,
        },
        Cmd::ClearColor,
        Cmd::UseProgram {
            program: ProgramId { id },
        },
        Cmd::BindTexture {
            unit: 0,
            texture: TextureRole::Ping(input),
        },
        Cmd::SetUniform {
            slot: UniformSlot::ScreenTexture,
            value: UniformValue::Int(0),
        },
        Cmd::SetUniform {
            slot: UniformSlot::Time,
            value: UniformValue::Float(t),
        },
        Cmd::SetResolution {
            width: w,
            height: h,
        },
        Cmd::BindVertexBuffer {
            buffer: BufferRole::Quad,
        },
        Cmd::EnableAttribute {
            slot: AttributeSlot::Position,
            info: AttributeInfo {
                size: 2,
                stride: 16,
                offset: 0,
            },
        },
        Cmd::EnableAttribute {
            slot: AttributeSlot::Uv,
            info: AttributeInfo {
                size: 2,
                stride: 16,
                offset: 8,
            },
        },
        Cmd::DrawTriangles { first: 0, count: 6 },
    ]
}

#[test]
fn disabled_stack_resolve_emits_nothing() {
    let mut stack = PostProcessStack::new(320, 200);
    stack.set_enabled(false);
    assert!(stack.begin().is_empty());
    assert!(stack.end(5).is_empty());
}

#[test]
fn empty_stack_resolve_is_pure_blit() {
    let mut stack = PostProcessStack::new(320, 200);
    let cmds = stack.end(0);
    assert_eq!(
        cmds,
        vec![
            Cmd::SetDepthTest { enabled: false },
            Cmd::BlitScene {
                to: RenderTarget::Screen
            },
            Cmd::SetDepthTest { enabled: true },
        ]
    );
    // A stack whose every effect is disabled blits too.
    let mut stack = PostProcessStack::new(320, 200);
    stack.push(effect(1));
    stack.get_mut(0).unwrap().set_enabled(false);
    assert_eq!(stack.end(0).len(), 3);
}

#[test]
fn two_effects_run_in_push_order_through_ping_pong() {
    let mut stack = PostProcessStack::new(640, 480);
    stack.push(effect(1)); // grayscale first
    stack.push(effect(2)); // invert second
    let t = 3.0f32.to_bits();
    let cmds = stack.end(t);

    // grayscale runs before invert: the image is invert(grayscale(scene)),
    // never grayscale(invert(scene)).
    assert_eq!(bound_programs(&cmds), vec![1, 2]);

    let mut expected = vec![
        Cmd::SetDepthTest { enabled: false },
        Cmd::BlitScene {
            to: RenderTarget::Ping(PingSlot::B),
        },
    ];
    // First pass reads the blit in B, writes A; last pass reads A and
    // lands on the screen.
    expected.extend(expected_pass(
        1,
        PingSlot::B,
        RenderTarget::Ping(PingSlot::A),
        640,
        480,
        t,
    ));
    expected.extend(expected_pass(2, PingSlot::A, RenderTarget::Screen, 640, 480, t));
    expected.push(Cmd::SetDepthTest { enabled: true });
    assert_eq!(cmds, expected);
}

#[test]
fn no_pass_reads_the_target_it_writes() {
    let mut stack = PostProcessStack::new(100, 100);
    for id in 1..=5 {
        stack.push(effect(id));
    }
    let cmds = stack.end(0);
    let mut bound_target: Option<RenderTarget> = None;
    for cmd in &cmds {
        match cmd {
            Cmd::BindTarget { target, .. } => bound_target = Some(*target),
            Cmd::BindTexture { texture, .. } => {
                if let (Some(RenderTarget::Ping(w)), TextureRole::Ping(r)) = (bound_target, texture)
                {
                    assert_ne!(w, *r, "a pass must never read the slot it writes");
                }
            }
            _ => {}
        }
    }
}

#[test]
fn disabling_middle_effect_matches_shorter_chain() {
    let mut three = PostProcessStack::new(640, 480);
    three.push(effect(1));
    three.push(effect(2));
    three.push(effect(3));
    three.get_mut(1).unwrap().set_enabled(false);

    let mut two = PostProcessStack::new(640, 480);
    two.push(effect(1));
    two.push(effect(3));

    assert_eq!(three.end(7), two.end(7));
}

#[test]
fn effect_list_mutation() {
    let mut stack = PostProcessStack::new(10, 10);
    assert_eq!(stack.push(effect(1)), 0);
    assert_eq!(stack.push(effect(2)), 1);
    assert_eq!(stack.push(effect(3)), 2);
    assert_eq!(stack.len(), 3);
    let removed = stack.remove(1).expect("index 1 exists");
    assert_eq!(removed.program(), ProgramId { id: 2 });
    assert_eq!(stack.len(), 2);
    assert!(stack.remove(5).is_none());
    // Remaining effects kept their relative order.
    assert_eq!(bound_programs(&stack.end(0)), vec![1, 3]);
    stack.clear();
    assert_eq!(stack.len(), 0);
}

#[test]
fn effect_uniforms_upload_after_standard_ones() {
    let mut e = effect(9);
    e.set_float("intensity", 0.8f32.to_bits());
    e.set("tint", UniformValue::Int(3));
    e.set_float("intensity", 0.4f32.to_bits()); // last write wins
    let ups = e.apply_uniforms();
    assert_eq!(ups.len(), 2);
    assert_eq!(
        ups[0],
        Cmd::SetUniform {
            slot: UniformSlot::Named("intensity".to_string()),
            value: UniformValue::Float(0.4f32.to_bits()),
        }
    );
    assert_eq!(
        ups[1],
        Cmd::SetUniform {
            slot: UniformSlot::Named("tint".to_string()),
            value: UniformValue::Int(3),
        }
    );
}

#[test]
fn begin_aims_at_scene_buffer() {
    let stack = PostProcessStack::new(800, 600);
    assert_eq!(
        stack.begin(),
        vec![
            Cmd::BindTarget {
                target: RenderTarget::SceneBuffer,
                width: 800,
                height: 600,
            },
            Cmd::ClearColorAndDepth,
        ]
    );
}

#[test]
fn resize_updates_dimensions() {
    let mut stack = PostProcessStack::new(800, 600);
    stack.resize(1024, 768);
    let cmds = stack.begin();
    assert_eq!(
        cmds[0],
        Cmd::BindTarget {
            target: RenderTarget::SceneBuffer,
            width: 1024,
            height: 768,
        }
    );
}

#[test]
fn single_effect_writes_straight_to_screen() {
    let mut stack = PostProcessStack::new(64, 64);
    stack.push(effect(7));
    let cmds = stack.end(0);
    let mut expected = vec![
        Cmd::SetDepthTest { enabled: false },
        Cmd::BlitScene {
            to: RenderTarget::Ping(PingSlot::B),
        },
    ];
    expected.extend(expected_pass(7, PingSlot::B, RenderTarget::Screen, 64, 64, 0));
    expected.push(Cmd::SetDepthTest { enabled: true });
    assert_eq!(cmds, expected);
}
