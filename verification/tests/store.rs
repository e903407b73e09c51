use game_engine::ecs::{Command, CommandBuffer, ComponentKind, Entity, World};
use game_engine::transform::components::{Children, Parent, PreviousParent};
use game_engine::base::systems::order::SystemOrder;
use game_engine::transform::systems::bundle::TransformBundle;
use game_engine::transform::systems::executor::execute;
use game_engine::transform::systems::pipeline::{child_lists_are_sound, run_transform_cycle};

type Store = World<i32, i32, i64>;

fn list(entities: &[Entity]) -> Children {
    let mut children = Children::new();
    for entity in entities {
        children.push(*entity);
    }
    children
}

#[test]
fn entities_are_numbered_and_never_come_back() {
    let mut world = Store::new();
    assert_eq!(world.len(), 0);
    let a = world.insert();
    let b = world.insert();
    assert_eq!((a.index(), b.index()), (0, 1));
    assert!(world.is_alive(a));
    assert!(!world.is_alive(Entity::from_id(2)));
    assert!(world.delete(a));
    assert!(!world.delete(a));
    assert!(!world.is_alive(a));
    let c = world.insert();
    assert_eq!(c.index(), 2);
    assert_eq!(world.len(), 3);
}

#[test]
fn components_of_a_live_entity() {
    let mut world = Store::new();
    let a = world.insert();
    let b = world.insert();
    assert!(world.parent(b).is_none());
    assert!(!world.entity_should_have_transform(b));
    assert!(world.set_parent(b, a));
    assert_eq!(world.parent(b), Some(Parent::new(a)));
    assert!(world.is_parent_changed(b));
    world.acknowledge_parent(b);
    assert!(!world.is_parent_changed(b));
    assert_eq!(world.parent(b), Some(Parent::new(a)));

    assert!(world.set_position(b, 7));
    assert_eq!(world.position(b), Some(&7));
    assert!(world.is_position_changed(b));
    assert!(world.entity_should_have_transform(b));
    assert!(world.set_rotation(b, 9));
    assert_eq!(world.rotation(b), Some(&9));
    assert!(world.is_rotation_changed(b));
    world.acknowledge_transform_inputs(b);
    assert!(!world.is_position_changed(b));
    assert!(!world.is_rotation_changed(b));
    assert_eq!((world.position(b), world.rotation(b)), (Some(&7), Some(&9)));

    // a new root has to be computed anew
    assert!(world.remove_parent(b));
    assert!(world.parent(b).is_none());
    assert!(world.is_position_changed(b));
    assert!(world.is_rotation_changed(b));

    assert!(world.remove_position(b));
    assert!(world.position(b).is_none());
    assert!(world.entity_should_have_transform(b));
    assert!(world.remove_rotation(b));
    assert!(!world.entity_should_have_transform(b));

    assert!(world.set_previous_parent(b, PreviousParent::from_entity(a)));
    assert_eq!(world.previous_parent(b), Some(PreviousParent::from_entity(a)));
    assert!(world.set_parent_transform(b, 11));
    assert_eq!(world.parent_transform(b), Some(&11));
    assert!(world.set_world_transform(b, 13));
    assert_eq!(world.world_transform(b), Some(&13));

    assert!(world.set_children(a, list(&[b])));
    assert!(world.add_child(a, a));
    assert_eq!(world.children(a).unwrap().to_vec(), [b, a]);
    assert!(world.remove_child(a, b));
    assert_eq!(world.children(a).unwrap().to_vec(), [a]);
    assert!(!world.add_child(b, a));
    assert!(!world.remove_child(b, a));
}

#[test]
fn nothing_happens_to_an_entity_that_is_not_alive() {
    let mut world = Store::new();
    let a = world.insert();
    world.set_position(a, 1);
    world.delete(a);
    let ghost = Entity::from_id(17);
    for entity in [a, ghost] {
        assert!(!world.set_parent(entity, a));
        assert!(!world.remove_parent(entity));
        assert!(!world.set_position(entity, 1));
        assert!(!world.set_rotation(entity, 1));
        assert!(!world.set_children(entity, Children::new()));
        assert!(!world.set_world_transform(entity, 1));
        assert!(!world.add_child(entity, a));
        world.acknowledge_parent(entity);
        world.acknowledge_transform_inputs(entity);
        assert!(world.position(entity).is_none());
        assert!(world.parent(entity).is_none());
        assert!(world.children(entity).is_none());
        assert!(!world.is_position_changed(entity));
    }
}

#[test]
fn the_buffer_applies_in_submission_order() {
    let mut world = Store::new();
    let a = world.insert();
    let b = world.insert();
    let c = world.insert();
    let mut cmd = CommandBuffer::new();
    assert!(cmd.is_empty());
    cmd.add_world_transform(a, 1);
    cmd.add_world_transform(a, 2);
    cmd.add_parent_transform(a, 3);
    cmd.add_previous_parent(a, PreviousParent::from_entity(b));
    cmd.add_children(a, list(&[b, c]));
    // added before the deletion: gone with the entity
    cmd.add_world_transform(b, 4);
    cmd.delete(b);
    // added after the deletion, or to what never lived: nothing
    cmd.add_world_transform(b, 5);
    cmd.record(Command::AddWorldTransform(Entity::from_id(99), 6));
    cmd.delete(b);
    assert_eq!(cmd.len(), 10);
    // nothing is applied before the flush
    assert!(world.world_transform(a).is_none());
    assert!(world.is_alive(b));

    cmd.write(&mut world);

    assert!(cmd.is_empty());
    assert_eq!(world.world_transform(a), Some(&2));
    assert_eq!(world.parent_transform(a), Some(&3));
    assert_eq!(world.previous_parent(a), Some(PreviousParent::from_entity(b)));
    assert_eq!(world.children(a).unwrap().to_vec(), [b, c]);
    assert!(!world.is_alive(b));
    assert!(world.world_transform(b).is_none());
    assert!(world.is_alive(c));
    assert_eq!(world.len(), 3);
}

#[test]
fn the_buffer_takes_components_away() {
    let mut world = Store::new();
    let a = world.insert();
    let b = world.insert();
    world.set_previous_parent(a, PreviousParent::from_entity(b));
    world.set_children(a, list(&[b]));
    world.set_parent_transform(a, 1);
    world.set_world_transform(a, 2);
    world.set_world_transform(b, 3);
    let mut cmd = CommandBuffer::new();
    cmd.remove_component(a, ComponentKind::PreviousParent);
    cmd.remove_component(a, ComponentKind::Children);
    cmd.remove_component(a, ComponentKind::ParentTransform);
    cmd.remove_component(a, ComponentKind::WorldTransform);
    // taken away and given again: the last operation counts
    cmd.remove_component(b, ComponentKind::WorldTransform);
    cmd.add_world_transform(b, 4);
    // nothing to take away
    cmd.remove_component(b, ComponentKind::Children);
    cmd.remove_component(Entity::from_id(9), ComponentKind::Children);
    cmd.write(&mut world);
    assert!(world.previous_parent(a).is_none());
    assert!(world.children(a).is_none());
    assert!(world.parent_transform(a).is_none());
    assert!(world.world_transform(a).is_none());
    assert_eq!(world.world_transform(b), Some(&4));
    assert!(world.is_alive(a) && world.is_alive(b));
}

#[test]
fn sound_and_unsound_child_lists() {
    let mut world = Store::new();
    let a = world.insert();
    let b = world.insert();
    let c = world.insert();
    assert!(child_lists_are_sound(&world));
    world.set_parent(b, a);
    world.set_children(a, list(&[b]));
    assert!(child_lists_are_sound(&world));
    // c has no parent
    world.set_children(a, list(&[b, c]));
    assert!(!child_lists_are_sound(&world));
    // c has another parent
    world.set_parent(c, b);
    assert!(!child_lists_are_sound(&world));
    world.set_parent(c, a);
    assert!(child_lists_are_sound(&world));
    // a deleted entity in a list does no harm
    world.delete(c);
    assert!(child_lists_are_sound(&world));
    // a list that leads back to its owner
    world.set_children(b, list(&[a]));
    assert!(!child_lists_are_sound(&world));
}

fn cycle(world: &mut Store) {
    // positions shift, rotations scale, products add
    run_transform_cycle(
        world,
        |p: &i32| *p as i64,
        |r: &i32| 1000 * *r as i64,
        |p: &i32, r: &i32| 1000 * *r as i64 + *p as i64,
        |parent: &i64, local: &i64| parent + local,
    );
}

#[test]
fn a_cycle_runs_all_stages() {
    let mut world = Store::new();
    let root = world.insert();
    world.set_position(root, 1);
    let kid = world.insert();
    world.set_parent(kid, root);
    world.set_rotation(kid, 2);
    let grandkid = world.insert();
    world.set_parent(grandkid, kid);
    world.set_position(grandkid, 3);
    world.set_rotation(grandkid, 4);
    let orphan = world.insert();
    world.set_parent(orphan, Entity::from_id(50));
    world.set_position(orphan, 5);

    cycle(&mut world);

    assert!(!world.is_alive(orphan));
    assert_eq!(world.children(root).unwrap().to_vec(), [kid]);
    assert_eq!(world.children(kid).unwrap().to_vec(), [grandkid]);
    assert_eq!(world.world_transform(root), Some(&1));
    assert!(world.parent_transform(root).is_none());
    assert_eq!(world.parent_transform(kid), Some(&2000));
    assert_eq!(world.world_transform(kid), Some(&2001));
    assert_eq!(world.parent_transform(grandkid), Some(&4003));
    assert_eq!(world.world_transform(grandkid), Some(&6004));
    assert!(child_lists_are_sound(&world));

    // a move of the root reaches the leaves in the next cycle
    world.set_position(root, 10);
    cycle(&mut world);
    assert_eq!(world.world_transform(root), Some(&10));
    assert_eq!(world.world_transform(kid), Some(&2010));
    assert_eq!(world.world_transform(grandkid), Some(&6013));
}

#[test]
fn a_cycle_skips_the_walk_over_unsound_lists() {
    let mut world = Store::new();
    let a = world.insert();
    world.set_position(a, 1);
    let b = world.insert();
    world.set_position(b, 2);
    // a list written by hand that no parent pointer backs
    world.set_children(a, list(&[b]));
    cycle(&mut world);
    assert_eq!(world.world_transform(a), Some(&1));
    assert_eq!(world.world_transform(b), Some(&2));
    assert!(world.parent_transform(b).is_none());
}

fn run(world: &mut Store, bundle: TransformBundle) {
    execute(
        &bundle.into_schedule(),
        world,
        |p: &i32| *p as i64,
        |r: &i32| 1000 * *r as i64,
        |p: &i32, r: &i32| 1000 * *r as i64 + *p as i64,
        |parent: &i64, local: &i64| parent + local,
    );
}

fn family(world: &mut Store) -> (Entity, Entity) {
    let root = world.insert();
    world.set_position(root, 1);
    let kid = world.insert();
    world.set_parent(kid, root);
    world.set_position(kid, 2);
    (root, kid)
}

#[test]
fn the_schedule_with_the_flush_is_a_cycle() {
    let mut scheduled = Store::new();
    let (root, kid) = family(&mut scheduled);
    run(&mut scheduled, TransformBundle::new_flush(SystemOrder::numbered(0, 0)));
    let mut cycled = Store::new();
    family(&mut cycled);
    cycle(&mut cycled);
    for entity in [root, kid] {
        assert_eq!(scheduled.world_transform(entity), cycled.world_transform(entity));
        assert_eq!(scheduled.parent_transform(entity), cycled.parent_transform(entity));
        assert_eq!(scheduled.previous_parent(entity), cycled.previous_parent(entity));
        assert_eq!(
            scheduled.children(entity).map(|c| c.to_vec()),
            cycled.children(entity).map(|c| c.to_vec())
        );
    }
    assert_eq!(scheduled.world_transform(kid), Some(&3));
}

#[test]
fn without_the_flush_the_walk_comes_one_run_late() {
    let mut world = Store::new();
    let (root, kid) = family(&mut world);
    let bundle = TransformBundle::new(SystemOrder::numbered(0, 0));
    run(&mut world, bundle);
    // the child list and the local transform were still waiting when the
    // last stage ran
    assert_eq!(world.children(root).unwrap().to_vec(), [kid]);
    assert_eq!(world.parent_transform(kid), Some(&2));
    assert!(world.world_transform(kid).is_none());
    run(&mut world, bundle);
    assert_eq!(world.world_transform(kid), Some(&3));
}

#[test]
fn parent_chains_that_go_round_are_never_reached() {
    let mut world = Store::new();
    let own = world.insert();
    world.set_parent(own, own);
    world.set_position(own, 1);
    let a = world.insert();
    let b = world.insert();
    world.set_parent(a, b);
    world.set_parent(b, a);
    world.set_position(a, 2);
    world.set_position(b, 3);
    let root = world.insert();
    world.set_position(root, 4);

    cycle(&mut world);
    cycle(&mut world);

    assert_eq!(world.children(own).unwrap().to_vec(), [own]);
    assert_eq!(world.children(a).unwrap().to_vec(), [b]);
    assert_eq!(world.children(b).unwrap().to_vec(), [a]);
    assert!(child_lists_are_sound(&world));
    // each has its local transform, and none a world transform
    for (entity, local) in [(own, 1i64), (a, 2), (b, 3)] {
        assert!(world.is_alive(entity));
        assert_eq!(world.parent_transform(entity), Some(&local));
        assert!(world.world_transform(entity).is_none());
    }
    assert_eq!(world.world_transform(root), Some(&4));

    // deleting one of the two takes the other along, and the cascade ends
    world.delete(a);
    cycle(&mut world);
    assert!(!world.is_alive(b));
    assert!(world.is_alive(own));
}
