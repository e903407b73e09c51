use game_engine::ecs::{CommandBuffer, Entity, World};
use game_engine::transform::components::Children;
use game_engine::transform::local::TransformKind;
use game_engine::transform::systems::hierarchical_transform_update::build_hierarchical_transform_update_system;
use game_engine::transform::systems::hierarchy_sync::build_hierarchy_sync_system;
use game_engine::transform::systems::simple_transform_update::{
    build_parent_transform_update_system, build_world_transform_update_system,
    TransformUpdateSystem,
};
use nalgebra::{Matrix4, Translation3, UnitQuaternion, Vector3};
use std::f32::consts::{FRAC_PI_3, FRAC_PI_4};

type Position = Translation3<f32>;
type Rotation = UnitQuaternion<f32>;
type Transform = Matrix4<f32>;
type Store = World<Position, Rotation, Transform>;

fn from_position(position: &Position) -> Transform {
    position.to_homogeneous()
}

fn from_rotation(rotation: &Rotation) -> Transform {
    rotation.to_homogeneous()
}

fn from_both(position: &Position, rotation: &Rotation) -> Transform {
    rotation.to_homogeneous().append_translation(&position.vector)
}

fn compose(parent: &Transform, local: &Transform) -> Transform {
    parent * local
}

fn update(world: &mut Store, system: TransformUpdateSystem) {
    let mut cmd = CommandBuffer::new();
    system.run(world, &mut cmd, from_position, from_rotation, from_both);
    cmd.write(world);
}

fn sync(world: &mut Store) {
    let mut cmd = CommandBuffer::new();
    build_hierarchy_sync_system().run(world, &mut cmd);
    cmd.write(world);
}

fn propagate(world: &mut Store) {
    let mut cmd = CommandBuffer::new();
    build_hierarchical_transform_update_system().run(world, &mut cmd, compose);
    cmd.write(world);
}

fn cycle(world: &mut Store) {
    sync(world);
    update(world, build_world_transform_update_system());
    update(world, build_parent_transform_update_system());
    propagate(world);
}

fn children(entities: &[Entity]) -> Children {
    let mut list = Children::new();
    for entity in entities {
        list.push(*entity);
    }
    list
}

#[test]
fn world_transform_update_system() {
    let mut world = Store::new();
    let system = build_world_transform_update_system();

    let t = Transform::identity();
    let p = Position::new(1.0, 2.0, 3.0);
    let r = Rotation::new(Vector3::new(0.0, 0.0, FRAC_PI_3));

    let pos = world.insert();
    world.set_world_transform(pos, t);
    world.set_position(pos, p);
    let rot = world.insert();
    world.set_world_transform(rot, t);
    world.set_rotation(rot, r);
    let pos_rot = world.insert();
    world.set_world_transform(pos_rot, t);
    world.set_position(pos_rot, p);
    world.set_rotation(pos_rot, r);
    let pos_w_parent = world.insert();
    world.set_world_transform(pos_w_parent, t);
    world.set_position(pos_w_parent, p);
    world.set_parent(pos_w_parent, pos_rot);
    let no_t = world.insert();
    world.set_position(no_t, p);
    world.set_rotation(no_t, r);

    update(&mut world, system);

    assert_eq!(*world.world_transform(pos).unwrap(), p.to_homogeneous());
    assert_eq!(*world.world_transform(rot).unwrap(), r.to_homogeneous());
    assert_eq!(
        *world.world_transform(pos_rot).unwrap(),
        r.to_homogeneous().append_translation(&p.vector)
    );
    assert_eq!(
        *world.world_transform(pos_w_parent).unwrap(),
        t // should not update the entities with `Parent` component
    );
    assert_eq!(
        *world.world_transform(no_t).unwrap(),
        r.to_homogeneous().append_translation(&p.vector)
    );
}

#[test]
fn hierarchical_transform_update_system() {
    let mut world = Store::new();

    // Define positions, rotations, and parent transforms to use

    let wt = Transform::identity();

    let root_pos = Position::new(0.0, 1.0, 0.0);

    let left_pos = Position::new(-1.0, 0.0, 0.0);
    let left_rot = Rotation::new(Vector3::new(0.0, 0.0, 1.0) * FRAC_PI_4);
    let left_pt = from_both(&left_pos, &left_rot);

    let right_pos = Position::new(1.0, 0.0, 0.0);
    let right_rot = Rotation::new(Vector3::new(0.0, 0.0, -1.0) * FRAC_PI_4);
    let right_pt = from_both(&right_pos, &right_rot);

    let left_weapon_pos = Position::new(-1.0, 0.0, 0.0);
    let left_weapon_rot = Rotation::new(Vector3::new(-1.0, 0.0, 0.0) * FRAC_PI_4);
    let left_weapon_pt = from_both(&left_weapon_pos, &left_weapon_rot);

    let right_weapon_pos = Position::new(-1.0, 0.0, 0.0);
    let right_weapon_rot = Rotation::new(Vector3::new(-1.0, 0.0, 0.0) * FRAC_PI_4);
    let right_weapon_pt = from_both(&right_weapon_pos, &right_weapon_rot);

    // Add entities to the world

    let root = world.insert();
    world.set_world_transform(root, wt);
    world.set_position(root, root_pos);

    let mut child = |parent: Entity, pt: Transform, pos: Position, rot: Rotation| {
        let entity = world.insert();
        world.set_world_transform(entity, wt);
        world.set_parent_transform(entity, pt);
        world.set_parent(entity, parent);
        world.set_position(entity, pos);
        world.set_rotation(entity, rot);
        entity
    };
    let left = child(root, left_pt, left_pos, left_rot);
    let right = child(root, right_pt, right_pos, right_rot);
    let left_weapon = child(left, left_weapon_pt, left_weapon_pos, left_weapon_rot);
    let right_weapon = child(right, right_weapon_pt, right_weapon_pos, right_weapon_rot);
    world.set_children(root, children(&[left, right]));
    world.set_children(left, children(&[left_weapon]));
    world.set_children(right, children(&[right_weapon]));

    // Run the system to check if it updates all the world transforms in the hierarchy
    propagate(&mut world);

    // Assertions
    assert_eq!(*world.world_transform(left).unwrap(), wt * left_pt);
    assert_eq!(*world.world_transform(right).unwrap(), wt * right_pt);
    assert_eq!(
        *world.world_transform(left_weapon).unwrap(),
        wt * left_pt * left_weapon_pt
    );
    assert_eq!(
        *world.world_transform(right_weapon).unwrap(),
        wt * right_pt * right_weapon_pt
    );
}

#[test]
fn parent_transform_update_system() {
    let mut world = Store::new();
    let p = Position::new(1.0, 2.0, 3.0);
    let r = Rotation::new(Vector3::new(0.0, FRAC_PI_3, 0.0));
    let root = world.insert();
    world.set_position(root, p);
    let with_position = world.insert();
    world.set_parent(with_position, root);
    world.set_position(with_position, p);
    let with_rotation = world.insert();
    world.set_parent(with_rotation, root);
    world.set_rotation(with_rotation, r);
    let with_both = world.insert();
    world.set_parent(with_both, root);
    world.set_position(with_both, p);
    world.set_rotation(with_both, r);
    let with_neither = world.insert();
    world.set_parent(with_neither, root);

    update(&mut world, build_parent_transform_update_system());

    // roots are not considered
    assert!(world.parent_transform(root).is_none());
    assert!(world.world_transform(root).is_none());
    assert_eq!(*world.parent_transform(with_position).unwrap(), p.to_homogeneous());
    assert_eq!(*world.parent_transform(with_rotation).unwrap(), r.to_homogeneous());
    assert_eq!(
        *world.parent_transform(with_both).unwrap(),
        r.to_homogeneous().append_translation(&p.vector)
    );
    assert!(world.parent_transform(with_neither).is_none());
}

#[test]
fn one_full_cycle() {
    // A is a root at (0, 1, 0) with the identity rotation; B is its child at
    // (-1, 0, 0), turned by 45 degrees about +Z
    let mut world = Store::new();
    let a = world.insert();
    world.set_position(a, Position::new(0.0, 1.0, 0.0));
    world.set_rotation(a, Rotation::identity());
    let b = world.insert();
    let b_position = Position::new(-1.0, 0.0, 0.0);
    let b_rotation = Rotation::from_axis_angle(&Vector3::z_axis(), FRAC_PI_4);
    world.set_position(b, b_position);
    world.set_rotation(b, b_rotation);
    world.set_parent(b, a);

    cycle(&mut world);

    let a_world = Position::new(0.0, 1.0, 0.0).to_homogeneous();
    let b_local = b_rotation.to_homogeneous().append_translation(&b_position.vector);
    assert_eq!(*world.world_transform(a).unwrap(), a_world);
    assert_eq!(*world.parent_transform(b).unwrap(), b_local);
    assert_eq!(*world.world_transform(b).unwrap(), a_world * b_local);
    // rotate first, then translate: the origin of B lies at (-1, 1, 0)
    let origin = world.world_transform(b).unwrap().column(3).into_owned();
    assert_eq!((origin[0], origin[1], origin[2], origin[3]), (-1.0, 1.0, 0.0, 1.0));
    // and its x axis points along the diagonal
    let x_axis = world.world_transform(b).unwrap().column(0).into_owned();
    assert!((x_axis[0] - std::f32::consts::FRAC_1_SQRT_2).abs() < 1.0e-6);
    assert!((x_axis[1] - std::f32::consts::FRAC_1_SQRT_2).abs() < 1.0e-6);
}

#[test]
fn composition_along_a_chain() {
    let mut world = Store::new();
    let r = world.insert();
    world.set_position(r, Position::new(1.0, 0.0, 0.0));
    let c1 = world.insert();
    world.set_parent(c1, r);
    world.set_position(c1, Position::new(0.0, 2.0, 0.0));
    world.set_rotation(c1, Rotation::new(Vector3::new(0.0, 0.0, FRAC_PI_3)));
    let c2 = world.insert();
    world.set_parent(c2, c1);
    world.set_rotation(c2, Rotation::new(Vector3::new(FRAC_PI_4, 0.0, 0.0)));

    cycle(&mut world);

    let t_r = *world.world_transform(r).unwrap();
    let pt1 = *world.parent_transform(c1).unwrap();
    let pt2 = *world.parent_transform(c2).unwrap();
    assert_eq!(t_r, Position::new(1.0, 0.0, 0.0).to_homogeneous());
    assert_eq!(*world.world_transform(c1).unwrap(), t_r * pt1);
    assert_eq!(*world.world_transform(c2).unwrap(), t_r * pt1 * pt2);
}

#[test]
fn unchanged_inputs_are_skipped() {
    let mut world = Store::new();
    let root = world.insert();
    world.set_position(root, Position::new(1.0, 2.0, 3.0));
    let kid = world.insert();
    world.set_parent(kid, root);
    world.set_position(kid, Position::new(4.0, 5.0, 6.0));
    cycle(&mut world);
    assert!(!world.is_position_changed(root));
    assert!(!world.is_position_changed(kid));

    // overwrite the derived data by hand: an update that skipped the
    // entities leaves the marks in place
    let mark = Transform::from_element(7.0);
    world.set_world_transform(root, mark);
    world.set_parent_transform(kid, mark);
    update(&mut world, build_world_transform_update_system());
    update(&mut world, build_parent_transform_update_system());
    assert_eq!(*world.world_transform(root).unwrap(), mark);
    assert_eq!(*world.parent_transform(kid).unwrap(), mark);

    // a write to the position is picked up again
    world.set_position(root, Position::new(0.0, 0.0, 1.0));
    update(&mut world, build_world_transform_update_system());
    assert_eq!(
        *world.world_transform(root).unwrap(),
        Position::new(0.0, 0.0, 1.0).to_homogeneous()
    );
    assert_eq!(*world.parent_transform(kid).unwrap(), mark);
}

#[test]
fn a_child_without_transform_hides_its_subtree() {
    let mut world = Store::new();
    let root = world.insert();
    world.set_position(root, Position::new(1.0, 0.0, 0.0));
    let bare = world.insert();
    world.set_parent(bare, root);
    let below = world.insert();
    world.set_parent(below, bare);
    world.set_position(below, Position::new(0.0, 1.0, 0.0));
    cycle(&mut world);
    assert!(world.world_transform(bare).is_none());
    // the local transform is there, the world transform never came
    assert!(world.parent_transform(below).is_some());
    assert!(world.world_transform(below).is_none());
}

#[test]
fn a_child_without_parent_transform_is_passed_over() {
    let mut world = Store::new();
    let root = world.insert();
    world.set_world_transform(root, Transform::identity());
    let kid = world.insert();
    world.set_parent(kid, root);
    world.set_position(kid, Position::new(0.0, 1.0, 0.0));
    let below = world.insert();
    world.set_parent(below, kid);
    world.set_position(below, Position::new(0.0, 1.0, 0.0));
    world.set_parent_transform(below, Transform::identity());
    sync(&mut world);
    // no local update has run: the child has no transform relative to the parent
    propagate(&mut world);
    assert!(world.world_transform(kid).is_none());
    assert!(world.world_transform(below).is_none());
}

#[test]
fn a_new_root_gets_its_own_world_transform_back() {
    let mut world = Store::new();
    let root = world.insert();
    world.set_position(root, Position::new(1.0, 0.0, 0.0));
    let kid = world.insert();
    world.set_parent(kid, root);
    world.set_position(kid, Position::new(0.0, 1.0, 0.0));
    cycle(&mut world);
    assert_eq!(
        *world.world_transform(kid).unwrap(),
        Position::new(1.0, 1.0, 0.0).to_homogeneous()
    );
    world.remove_parent(kid);
    cycle(&mut world);
    assert_eq!(
        *world.world_transform(kid).unwrap(),
        Position::new(0.0, 1.0, 0.0).to_homogeneous()
    );
}

#[test]
fn the_two_updates_are_told_apart() {
    assert_eq!(build_parent_transform_update_system().kind, TransformKind::Parent);
    assert_eq!(build_world_transform_update_system().kind, TransformKind::World);
}
