use space_game_core::fixed::{fx_mul, FX_ONE};
use space_game_core::handle::{Handle, HandleTable};
use space_game_core::instance_set::InstanceSet;
use space_game_core::player::keys_to_axis;
use space_game_core::scene::{MaterialHandle, MeshHandle, SceneRenderData};
use space_game_core::math::Vec3Fx;
use space_game_core::transform::Transform;

fn h(index: u32, generation: u32) -> Handle {
    Handle { index, generation }
}

#[test]
fn handle_insert_get_roundtrip() {
    let mut table: HandleTable<u64> = HandleTable::new();
    let a = table.insert(10);
    let b = table.insert(20);
    assert_eq!(*table.get(a).unwrap(), 10);
    assert_eq!(*table.get(b).unwrap(), 20);
    assert_ne!(a, b);
}

#[test]
fn handle_remove_then_get_is_none() {
    let mut table: HandleTable<u64> = HandleTable::new();
    let a = table.insert(10);
    assert_eq!(table.remove(a), Some(10));
    assert!(table.get(a).is_none());
    assert!(table.remove(a).is_none());
}

#[test]
fn handle_reuse_does_not_alias() {
    let mut table: HandleTable<u64> = HandleTable::new();
    let a = table.insert(10);
    table.remove(a);
    // the slot is reused, but under a new generation
    let b = table.insert(30);
    assert_eq!(a.index, b.index);
    assert_ne!(a, b);
    // the dead handle must never see the new occupant's value
    assert!(table.get(a).is_none());
    assert_eq!(*table.get(b).unwrap(), 30);
}

#[test]
fn batch_add_update_get() {
    // round-trip: add(h, M); update(h, M2); get(h) == M2
    let mut set: InstanceSet<u64> = InstanceSet::new(8);
    let key = h(0, 0);
    set.add(key, 111);
    set.update(key, 222);
    assert_eq!(*set.get(key).unwrap(), 222);
}

#[test]
fn batch_count_tracks_live_handles() {
    let mut set: InstanceSet<u64> = InstanceSet::new(8);
    let keys = [h(0, 0), h(1, 0), h(2, 0), h(3, 0)];
    for (i, k) in keys.iter().enumerate() {
        set.add(*k, i as u64);
        assert_eq!(set.len(), i + 1);
    }
    // every live handle's slot is below the count and unique
    let mut seen = [false; 4];
    for k in keys.iter() {
        let slot = set.slot_index(*k).unwrap();
        assert!(slot < set.len());
        assert!(!seen[slot]);
        seen[slot] = true;
    }
    set.remove(keys[1]);
    assert_eq!(set.len(), 3);
    set.remove(keys[0]);
    assert_eq!(set.len(), 2);
    assert!(set.get(keys[0]).is_none());
    assert!(set.get(keys[1]).is_none());
}

#[test]
fn batch_swap_with_last_backfills() {
    // three instances with distinct payloads; removing the middle one
    // moves the last into its slot and leaves the first in place
    let mut set: InstanceSet<u64> = InstanceSet::new(8);
    let (h1, h2, h3) = (h(0, 0), h(1, 0), h(2, 0));
    set.add(h1, 100);
    set.add(h2, 200);
    set.add(h3, 300);
    assert_eq!(set.slot_index(h2), Some(1));
    set.remove(h2);
    assert_eq!(set.len(), 2);
    assert_eq!(set.slot_index(h1), Some(0));
    assert_eq!(set.slot_index(h3), Some(1));
    assert!(set.slot_index(h2).is_none());
    assert_eq!(set.data(), &[100, 300]);
}

#[test]
fn batch_grows_geometrically_when_full() {
    let mut set: InstanceSet<u64> = InstanceSet::new(2);
    assert!(!set.add(h(0, 0), 1));
    assert!(!set.add(h(1, 0), 2));
    assert_eq!(set.capacity(), 2);
    assert!(set.add(h(2, 0), 3));
    assert_eq!(set.capacity(), 4);
    assert_eq!(set.len(), 3);
    assert_eq!(*set.get(h(0, 0)).unwrap(), 1);
    assert_eq!(*set.get(h(2, 0)).unwrap(), 3);
}

#[test]
fn scene_routes_by_mesh_and_material() {
    let mut scene = SceneRenderData::new();
    let mesh_a = MeshHandle { id: 1 };
    let mesh_b = MeshHandle { id: 2 };
    let material = MaterialHandle { id: 7 };
    let t1 = Transform::new_pos(Vec3Fx::new(FX_ONE, 0, 0));
    let t2 = Transform::new_pos(Vec3Fx::new(0, FX_ONE, 0));
    let i1 = scene.create_instance(mesh_a, material, &t1).unwrap();
    let i2 = scene.create_instance(mesh_b, material, &t2).unwrap();
    assert_eq!(scene.batch_count(), 2);
    assert_eq!(*scene.get_instance(i1).unwrap(), t1);
    assert_eq!(*scene.get_instance(i2).unwrap(), t2);

    let t3 = Transform::new_pos(Vec3Fx::new(0, 0, FX_ONE));
    scene.update_instance(i1, &t3);
    assert_eq!(*scene.get_instance(i1).unwrap(), t3);
    assert_eq!(*scene.get_instance(i2).unwrap(), t2);

    scene.remove_instance(i1);
    assert!(!scene.contains_instance(i1));
    assert!(scene.get_instance(i1).is_none());
    assert_eq!(*scene.get_instance(i2).unwrap(), t2);
}

#[test]
fn axis_from_key_pairs() {
    assert_eq!(keys_to_axis(true, false), FX_ONE);
    assert_eq!(keys_to_axis(false, true), -FX_ONE);
    assert_eq!(keys_to_axis(false, false), 0);
    assert_eq!(keys_to_axis(true, true), 0);
}

#[test]
fn fixed_point_multiplication() {
    assert_eq!(fx_mul(3 * FX_ONE, 2 * FX_ONE), 6 * FX_ONE);
    assert_eq!(fx_mul(FX_ONE / 2, FX_ONE / 2), FX_ONE / 4);
    assert_eq!(fx_mul(-3 * FX_ONE, 2 * FX_ONE), -6 * FX_ONE);
    assert_eq!(fx_mul(5, 0), 0);
    // rounding is toward zero on both sides
    assert_eq!(fx_mul(1, 1), 0);
    assert_eq!(fx_mul(-1, 1), 0);
}

#[test]
fn transform_compose_identity() {
    let t = Transform::new_pos(Vec3Fx::new(3 * FX_ONE, -2 * FX_ONE, FX_ONE));
    assert_eq!(t.compose(Transform::default()), t);
    assert_eq!(Transform::default().compose(t), t);
}
