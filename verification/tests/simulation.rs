use space_game_core::entity::RigidBodyType;
use space_game_core::fixed::FX_ONE;
use space_game_core::math::{QuatFx, Vec3Fx};
use space_game_core::physics::{ColliderShape, PhysicsScene};
use space_game_core::player::Player;
use space_game_core::scene::{MaterialHandle, MeshHandle};
use space_game_core::transform::Transform;
use space_game_core::world::{DynamicEntity, Entity, SpaceCraft, SpaceCraftPart, World};

#[test]
fn body_at_rest_stays_at_rest() {
    // zero gravity, zero velocity: after a second of stepping the body
    // has not moved
    let mut physics = PhysicsScene::new();
    let body = physics.create_rigid_body(
        Vec3Fx::zero(),
        QuatFx::identity(),
        RigidBodyType::Dynamic,
    );
    for _ in 0..16 {
        physics.step_physics(FX_ONE / 16);
    }
    physics.step_physics(FX_ONE);
    let (position, rotation) = physics.get_rigid_body_transform(body);
    assert_eq!(position, Vec3Fx::zero());
    assert_eq!(rotation, QuatFx::identity());
}

#[test]
fn gravity_integrates_symplectically() {
    let mut physics = PhysicsScene::new();
    physics.set_gravity(Vec3Fx::new(0, -FX_ONE, 0));
    let body = physics.create_rigid_body(
        Vec3Fx::zero(),
        QuatFx::identity(),
        RigidBodyType::Dynamic,
    );
    physics.step_physics(FX_ONE);
    let (position, _) = physics.get_rigid_body_transform(body);
    // velocity first picks up gravity, then the position integrates it
    assert_eq!(position, Vec3Fx::new(0, -FX_ONE, 0));
}

#[test]
fn static_bodies_ignore_the_step() {
    let mut physics = PhysicsScene::new();
    physics.set_gravity(Vec3Fx::new(0, -FX_ONE, 0));
    let body = physics.create_rigid_body(
        Vec3Fx::new(FX_ONE, 2 * FX_ONE, 0),
        QuatFx::identity(),
        RigidBodyType::Static,
    );
    physics.step_physics(FX_ONE);
    let (position, _) = physics.get_rigid_body_transform(body);
    assert_eq!(position, Vec3Fx::new(FX_ONE, 2 * FX_ONE, 0));
}

#[test]
fn removing_a_body_removes_its_colliders() {
    let mut physics = PhysicsScene::new();
    let body = physics.create_rigid_body(
        Vec3Fx::zero(),
        QuatFx::identity(),
        RigidBodyType::Dynamic,
    );
    let shape = ColliderShape::Sphere(FX_ONE);
    let collider = physics.create_collider(
        body,
        Vec3Fx::zero(),
        QuatFx::identity(),
        &shape,
        FX_ONE,
    );
    assert!(physics.contains_collider(collider));
    physics.remove_rigid_body(body);
    assert!(!physics.contains_rigid_body(body));
    assert!(!physics.contains_collider(collider));
}

#[test]
fn dynamic_entity_reflects_this_frames_step() {
    let mut world = World::new();
    let entity = DynamicEntity::new(
        Transform::new_pos(Vec3Fx::new(0, 4 * FX_ONE, 0)),
        Some((MeshHandle { id: 1 }, MaterialHandle { id: 1 })),
        Some((ColliderShape::Sphere(FX_ONE), FX_ONE)),
    );
    let id = world.add_entity(Entity::Dynamic(entity));
    let (body, instance) = match world.entities.get(id).unwrap() {
        Entity::Dynamic(d) => (d.rigid_body_instance.unwrap(), d.model_instance.unwrap()),
        _ => unreachable!(),
    };
    world.world_info.physics.set_gravity(Vec3Fx::new(0, -FX_ONE, 0));
    world.update(FX_ONE);
    // the object's transform equals the body pose of this frame's step,
    // and the render instance carries the same transform
    let (body_position, _) = world.world_info.physics.get_rigid_body_transform(body);
    assert_eq!(body_position, Vec3Fx::new(0, 3 * FX_ONE, 0));
    let synced = match world.entities.get(id).unwrap() {
        Entity::Dynamic(d) => d.transform,
        _ => unreachable!(),
    };
    assert_eq!(synced.position, body_position);
    assert_eq!(*world.world_info.rendering.get_instance(instance).unwrap(), synced);
}

#[test]
fn craft_part_tracks_root_with_offset() {
    // one part offset by (0, 1, 0); after a step under angular velocity
    // the part's instance sits at root-compose-offset, not at the root
    let mut world = World::new();
    let offset = Transform::new_pos(Vec3Fx::new(0, FX_ONE, 0));
    let part = SpaceCraftPart::new(
        offset,
        Some((MeshHandle { id: 1 }, MaterialHandle { id: 1 })),
        Some((ColliderShape::Sphere(FX_ONE), FX_ONE)),
    );
    let craft = SpaceCraft::new(Transform::default(), vec![part]);
    let id = world.add_entity(Entity::Craft(craft));
    let (body, instance) = match world.entities.get(id).unwrap() {
        Entity::Craft(c) => (c.rigid_body_instance.unwrap(), c.parts[0].model_instance.unwrap()),
        _ => unreachable!(),
    };
    world.world_info.physics.set_rigid_body_angular_velocity(body, Vec3Fx::new(0, 0, FX_ONE));
    world.update(FX_ONE);
    let root = match world.entities.get(id).unwrap() {
        Entity::Craft(c) => c.transform,
        _ => unreachable!(),
    };
    let part_world = *world.world_info.rendering.get_instance(instance).unwrap();
    assert_eq!(part_world, root.compose(offset));
    assert_ne!(part_world, root);
    // with the root at the origin and a half-turn-per-second roll, the
    // offset lands at exactly this rotated position
    assert_eq!(part_world.position, Vec3Fx::new(-FX_ONE, FX_ONE / 2, 0));
}

#[test]
fn removing_an_entity_releases_every_handle() {
    // the removed object's instance, collider and body all become
    // unresolvable; another live object keeps all of its handles
    let mut world = World::new();
    let first = DynamicEntity::new(
        Transform::default(),
        Some((MeshHandle { id: 1 }, MaterialHandle { id: 1 })),
        Some((ColliderShape::Sphere(FX_ONE), FX_ONE)),
    );
    let second = DynamicEntity::new(
        Transform::new_pos(Vec3Fx::new(FX_ONE, 0, 0)),
        Some((MeshHandle { id: 1 }, MaterialHandle { id: 1 })),
        Some((ColliderShape::Sphere(FX_ONE), FX_ONE)),
    );
    let first_id = world.add_entity(Entity::Dynamic(first));
    let second_id = world.add_entity(Entity::Dynamic(second));
    let (b1, c1, i1) = match world.entities.get(first_id).unwrap() {
        Entity::Dynamic(d) => (
            d.rigid_body_instance.unwrap(),
            d.collider_instance.unwrap(),
            d.model_instance.unwrap(),
        ),
        _ => unreachable!(),
    };
    let (b2, c2, i2) = match world.entities.get(second_id).unwrap() {
        Entity::Dynamic(d) => (
            d.rigid_body_instance.unwrap(),
            d.collider_instance.unwrap(),
            d.model_instance.unwrap(),
        ),
        _ => unreachable!(),
    };
    world.remove_entity(first_id);
    assert!(world.entities.get(first_id).is_none());
    assert!(!world.world_info.rendering.contains_instance(i1));
    assert!(!world.world_info.physics.contains_collider(c1));
    assert!(!world.world_info.physics.contains_rigid_body(b1));
    assert!(world.entities.get(second_id).is_some());
    assert!(world.world_info.rendering.contains_instance(i2));
    assert!(world.world_info.physics.contains_collider(c2));
    assert!(world.world_info.physics.contains_rigid_body(b2));
}

#[test]
fn player_receives_input_and_carries_the_camera() {
    let mut world = World::new();
    let player = Player::new(Transform::default());
    let id = world.add_entity(Entity::Player(player));
    world.set_player(id);
    world.update_player_input(Vec3Fx::new(0, 0, FX_ONE), Vec3Fx::zero());
    world.update(FX_ONE);
    let (_, camera_transform) = world.get_player_camera();
    // facing +z with full forward input for one second at speed 5
    assert_eq!(camera_transform.position, Vec3Fx::new(0, 0, 5 * FX_ONE));
}

#[test]
fn removing_the_player_clears_the_role() {
    let mut world = World::new();
    let id = world.add_entity(Entity::Player(Player::new(Transform::default())));
    world.set_player(id);
    world.remove_entity(id);
    assert!(world.player_entity.is_none());
    let (_, camera_transform) = world.get_player_camera();
    assert_eq!(camera_transform, Transform::default());
}
