use oxgl::{Arena, BufferId, Camera, Material, Mesh, ProgramId, QuatBits, Scene, Transform3D, Vec3Bits};

fn plain_material(id: u32) -> Material {
    Material::from_source(ProgramId { id }, "attribute vec3 position;")
}

fn plain_mesh(id: u32) -> Mesh {
    Mesh::new(BufferId { id }, 3, plain_material(id))
}

#[test]
fn object_round_trip() {
    let mut scene = Scene::new(Camera::new(1.0f32.to_bits()));
    let t = Transform3D::new().with_position(Vec3Bits {
        x: 1.0f32.to_bits(),
        y: 2.0f32.to_bits(),
        z: 3.0f32.to_bits(),
    });
    let id = scene.add(plain_mesh(7), t);
    {
        let obj = scene.get_mut(id).expect("fresh id must resolve");
        assert_eq!(obj.transform, t);
        assert_eq!(obj.mesh.material().program(), ProgramId { id: 7 });
    }
    let removed = scene.remove(id);
    assert!(removed.is_some());
    assert!(scene.get_mut(id).is_none());
    assert!(scene.remove(id).is_none());
}

#[test]
fn mutation_through_get_mut_sticks() {
    let mut scene = Scene::new(Camera::new(1.0f32.to_bits()));
    let id = scene.add(plain_mesh(1), Transform3D::new());
    let moved = Vec3Bits {
        x: 5.0f32.to_bits(),
        y: 0,
        z: 0,
    };
    scene.get_mut(id).unwrap().transform = Transform3D::new().with_position(moved);
    assert_eq!(scene.get_mut(id).unwrap().transform.position, moved);
}

#[test]
fn stale_id_never_resolves_to_new_object() {
    let mut scene = Scene::new(Camera::new(1.0f32.to_bits()));
    let first = scene.add(plain_mesh(1), Transform3D::new());
    assert!(scene.remove(first).is_some());
    let second = scene.add(plain_mesh(2), Transform3D::new());
    // The freed slot may be reused, but the stale identifier must not
    // resolve to the new occupant.
    assert!(scene.get_mut(first).is_none());
    assert_ne!(first, second);
    assert_eq!(
        scene.get_mut(second).unwrap().mesh.material().program(),
        ProgramId { id: 2 }
    );
}

#[test]
fn light_ids_and_object_ids_are_independent() {
    let mut scene = Scene::new(Camera::new(1.0f32.to_bits()));
    let oid = scene.add(plain_mesh(1), Transform3D::new());
    let lid = scene.add_light(oxgl::Light::directional(
        Vec3Bits::zero(),
        Vec3Bits::zero(),
        1.0f32.to_bits(),
    ));
    assert!(scene.get_mut(oid).is_some());
    assert!(scene.get_light_mut(lid).is_some());
    assert!(scene.remove_light(lid).is_some());
    assert!(scene.get_light_mut(lid).is_none());
    assert!(scene.get_mut(oid).is_some());
}

#[test]
fn arena_keeps_slot_order_and_recycles() {
    let mut arena: Arena<u64> = Arena::new();
    let a = arena.insert(1);
    let b = arena.insert(2);
    let c = arena.insert(3);
    assert_eq!(arena.live_values(), vec![1, 2, 3]);
    assert_eq!(arena.remove(b), Some(2));
    assert_eq!(arena.live_values(), vec![1, 3]);
    let d = arena.insert(4);
    // The freed middle slot is recycled: iteration is in slot order.
    assert_eq!(arena.live_values(), vec![1, 4, 3]);
    assert_eq!(arena.get(a), Some(&1));
    assert_eq!(arena.get(b), None);
    assert_eq!(arena.get(c), Some(&3));
    assert_eq!(arena.get(d), Some(&4));
    assert!(!arena.contains(b));
}

#[test]
fn arena_get_mut_writes_through() {
    let mut arena: Arena<u64> = Arena::new();
    let k = arena.insert(10);
    *arena.get_mut(k).unwrap() = 99;
    assert_eq!(arena.get(k), Some(&99));
    assert!(arena.get_mut(oxgl::ArenaKey {
        index: 5,
        generation: 0
    })
    .is_none());
}

#[test]
fn transform_builders_compose() {
    let q = QuatBits::identity();
    assert_eq!(f32::from_bits(q.w), 1.0);
    let pos = Vec3Bits {
        x: 1.0f32.to_bits(),
        y: 2.0f32.to_bits(),
        z: 3.0f32.to_bits(),
    };
    let scale = Vec3Bits {
        x: 2.0f32.to_bits(),
        y: 2.0f32.to_bits(),
        z: 2.0f32.to_bits(),
    };
    let t = Transform3D::new().with_position(pos).with_rotation(q).with_scale(scale);
    assert_eq!(t.position, pos);
    assert_eq!(t.rotation, q);
    assert_eq!(t.scale, scale);
    let base = Transform3D::new();
    assert_eq!(f32::from_bits(base.scale.x), 1.0);
    assert_eq!(f32::from_bits(base.position.x), 0.0);
}
