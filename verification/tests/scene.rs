use prism::scene::{Name, Scene, Transform};

#[test]
fn new_scene_is_empty() {
    let scene = Scene::new();
    assert_eq!(scene.world.len(), 0);
}

#[test]
fn spawn_empty_adds_named_entity() {
    let mut scene = Scene::new();
    let t = Transform::from_position(glam::Vec3::new(1.0, 2.0, 3.0));
    let e = scene.spawn_empty("cube", t);
    assert_eq!(scene.world.len(), 1);
    let name = scene.world.get::<&Name>(e).unwrap();
    assert_eq!(name.0, "cube");
    let tr = scene.world.get::<&Transform>(e).unwrap();
    assert_eq!(tr.position, glam::Vec3::new(1.0, 2.0, 3.0));
}

#[test]
fn spawned_entities_are_distinct() {
    let mut scene = Scene::new();
    let a = scene.spawn_empty("a", Transform::default());
    let b = scene.spawn_empty("b", Transform::default());
    assert_ne!(a, b);
    assert_eq!(scene.world.len(), 2);
    assert_eq!(scene.world.get::<&Name>(a).unwrap().0, "a");
    assert_eq!(scene.world.get::<&Name>(b).unwrap().0, "b");
}

#[test]
fn despawned_handle_is_not_reused() {
    let mut scene = Scene::new();
    let a = scene.spawn_empty("a", Transform::default());
    scene.world.despawn(a).unwrap();
    let b = scene.spawn_empty("b", Transform::default());
    assert_ne!(a.to_bits(), b.to_bits());
    assert!(!scene.world.contains(a));
}

#[test]
fn default_transform_is_identity() {
    let t = Transform::default();
    assert_eq!(t.position, glam::Vec3::ZERO);
    assert_eq!(t.rotation, glam::Quat::IDENTITY);
    assert_eq!(t.scale, glam::Vec3::ONE);
    assert_eq!(t.matrix(), glam::Mat4::IDENTITY);
}

#[test]
fn from_position_keeps_identity_rotation_and_scale() {
    let t = Transform::from_position(glam::Vec3::new(0.0, 5.0, 0.0));
    assert_eq!(t.rotation, glam::Quat::IDENTITY);
    assert_eq!(t.scale, glam::Vec3::ONE);
    assert_eq!(t.matrix(), glam::Mat4::from_translation(glam::Vec3::new(0.0, 5.0, 0.0)));
}

#[test]
fn spawn_keeps_other_entities() {
    let mut scene = Scene::new();
    let a = scene.spawn_empty("a", Transform::from_position(glam::Vec3::X));
    let _b = scene.spawn_empty("b", Transform::default());
    assert_eq!(scene.world.get::<&Name>(a).unwrap().0, "a");
    assert_eq!(scene.world.get::<&Transform>(a).unwrap().position, glam::Vec3::X);
}

#[test]
fn spawned_entity_has_exactly_two_components() {
    let mut scene = Scene::new();
    let a = scene.spawn_empty("a", Transform::default());
    scene.world.insert_one(a, 7u32).unwrap();
    let b = scene.spawn_empty("b", Transform::default());
    assert_eq!(scene.world.entity(b).unwrap().len(), 2);
    assert_eq!(scene.world.entity(a).unwrap().len(), 3);
    assert_eq!(*scene.world.get::<&u32>(a).unwrap(), 7);
}
