use game_engine::ecs::{CommandBuffer, Entity, World};
use game_engine::transform::components::{Children, Parent, PreviousParent};
use game_engine::transform::systems::hierarchy_sync::build_hierarchy_sync_system;

type Store = World<u8, u8, u8>;

fn children_of(world: &Store, entity: Entity) -> Option<Vec<Entity>> {
    world.children(entity).map(|children| children.to_vec())
}

fn sync(world: &mut Store) {
    let system = build_hierarchy_sync_system();
    let mut cmd = CommandBuffer::new();
    system.run(world, &mut cmd);
    cmd.write(world);
}

fn insert_with_parent(world: &mut Store, parent: Entity) -> Entity {
    let entity = world.insert();
    assert!(world.set_parent(entity, parent));
    entity
}

#[test]
fn hierarchy_sync_system() {
    let mut world = Store::new();

    // initial hierarchy
    // <-- parent                 child -->
    // r[0] -+- g1[0] --- g2[0]
    //       +- g1[1]
    // r[1] -+- g1[2] -+- g2[1]
    //       |         +- g2[2]
    //       +- g1[3]
    let r = vec![world.insert(), world.insert()];
    let g1 = vec![
        insert_with_parent(&mut world, r[0]),
        insert_with_parent(&mut world, r[0]),
        insert_with_parent(&mut world, r[1]),
        insert_with_parent(&mut world, r[1]),
    ];
    let g2 = vec![
        insert_with_parent(&mut world, g1[0]),
        insert_with_parent(&mut world, g1[2]),
        insert_with_parent(&mut world, g1[2]),
    ];

    sync(&mut world);

    assert_eq!(children_of(&world, r[0]).unwrap(), g1[0..2]);
    assert_eq!(children_of(&world, r[1]).unwrap(), g1[2..4]);
    assert_eq!(children_of(&world, g1[0]).unwrap(), g2[0..1]);
    assert!(world.children(g1[1]).is_none());
    assert_eq!(children_of(&world, g1[2]).unwrap(), g2[1..3]);
    assert!(world.children(g1[3]).is_none());
    assert!(g2.iter().all(|e| world.children(*e).is_none()));

    // changed hierarchy
    // <-- parent                  child -->
    // r[1] --- g1[3] --- g2[2]
    // g1[2] -+- g2[1]
    //        +- r[0] --- g1[1]
    // - g1[0] is deleted, and so is its child g2[0] by the system
    // - g2[2] has become a child of g1[3], not g1[2]
    // - g1[2] has become a root entity, not a child of r[1]
    // - r[0] has become a child of g1[2], not a root entity
    world.delete(g1[0]);
    let mut parent = world.parent(g2[2]).unwrap();
    parent.replace(g1[3]);
    world.set_parent(g2[2], parent.entity());
    world.remove_parent(g1[2]);
    world.set_parent(r[0], Parent::new(g1[2]).entity());

    sync(&mut world);

    assert!(!world.is_alive(g2[0]));
    assert_eq!(children_of(&world, g1[3]).unwrap(), [g2[2]]);
    assert!(world.previous_parent(g1[2]).unwrap().inner().is_none());
    assert_eq!(children_of(&world, g1[2]).unwrap(), [g2[1], r[0]]);
    assert_eq!(children_of(&world, r[1]).unwrap(), [g1[3]]);
}

#[test]
fn sync_records_what_it_defers() {
    let mut world = Store::new();
    let a = world.insert();
    let b = insert_with_parent(&mut world, a);
    let system = build_hierarchy_sync_system();
    let mut cmd = CommandBuffer::new();
    system.run(&mut world, &mut cmd);
    // the new PreviousParent and the new Children are deferred
    assert_eq!(cmd.len(), 2);
    assert!(world.previous_parent(b).is_none());
    assert!(world.children(a).is_none());
    // the change flag is consumed at once
    assert!(!world.is_parent_changed(b));
    cmd.write(&mut world);
    assert!(cmd.is_empty());
    assert_eq!(world.previous_parent(b), Some(PreviousParent::from_entity(a)));
    assert_eq!(children_of(&world, a).unwrap(), [b]);
}

#[test]
fn adjacency_after_sync() {
    let mut world = Store::new();
    let p = world.insert();
    let q = world.insert();
    let kids: Vec<Entity> = (0..6)
        .map(|i| insert_with_parent(&mut world, if i % 2 == 0 { p } else { q }))
        .collect();
    sync(&mut world);
    for (i, kid) in kids.iter().enumerate() {
        let parent = world.parent(*kid).unwrap().entity();
        assert_eq!(parent, if i % 2 == 0 { p } else { q });
        assert!(children_of(&world, parent).unwrap().contains(kid));
    }
    for owner in [p, q] {
        for kid in children_of(&world, owner).unwrap() {
            assert_eq!(world.parent(kid), Some(Parent::new(owner)));
        }
    }
    assert_eq!(children_of(&world, p).unwrap(), [kids[0], kids[2], kids[4]]);
    assert_eq!(children_of(&world, q).unwrap(), [kids[1], kids[3], kids[5]]);
}

#[test]
fn reparenting_moves_the_child() {
    // B goes from A to the new root C
    let mut world = Store::new();
    let a = world.insert();
    let b = insert_with_parent(&mut world, a);
    sync(&mut world);
    assert_eq!(children_of(&world, a).unwrap(), [b]);
    let c = world.insert();
    world.set_parent(b, c);
    sync(&mut world);
    assert!(!children_of(&world, a).unwrap().contains(&b));
    assert!(children_of(&world, c).unwrap().contains(&b));
    assert_eq!(world.previous_parent(b).unwrap().inner(), Some(c));
}

#[test]
fn deleting_the_parent_deletes_the_child() {
    let mut world = Store::new();
    let a = world.insert();
    let b = insert_with_parent(&mut world, a);
    sync(&mut world);
    assert!(world.delete(a));
    assert!(world.is_alive(b));
    sync(&mut world);
    assert!(!world.is_alive(a));
    assert!(!world.is_alive(b));
}

#[test]
fn cascade_takes_the_whole_subtree_and_nothing_else() {
    let mut world = Store::new();
    let root = world.insert();
    let doomed = insert_with_parent(&mut world, root);
    let sibling = insert_with_parent(&mut world, root);
    let child = insert_with_parent(&mut world, doomed);
    let grandchild = insert_with_parent(&mut world, child);
    let niece = insert_with_parent(&mut world, sibling);
    sync(&mut world);
    world.delete(doomed);
    sync(&mut world);
    assert!(!world.is_alive(doomed));
    assert!(!world.is_alive(child));
    assert!(!world.is_alive(grandchild));
    assert!(world.is_alive(root));
    assert!(world.is_alive(sibling));
    assert!(world.is_alive(niece));
    assert_eq!(children_of(&world, sibling).unwrap(), [niece]);
}

#[test]
fn cascade_reaches_children_that_are_only_staged() {
    // the doomed parent never had its child list committed
    let mut world = Store::new();
    let gone = world.insert();
    let parent = insert_with_parent(&mut world, gone);
    let child = insert_with_parent(&mut world, parent);
    world.delete(gone);
    sync(&mut world);
    assert!(!world.is_alive(parent));
    assert!(!world.is_alive(child));
}

#[test]
fn nothing_is_deleted_twice() {
    // a list written by hand names the child twice, and the child's own
    // child is reached through either mention
    let mut world = Store::new();
    let gone = world.insert();
    let parent = insert_with_parent(&mut world, gone);
    let child = insert_with_parent(&mut world, parent);
    let grandchild = insert_with_parent(&mut world, child);
    sync(&mut world);
    let mut twice = Children::new();
    twice.push(child);
    twice.push(child);
    world.set_children(parent, twice);
    world.delete(gone);
    let system = build_hierarchy_sync_system();
    let mut cmd = CommandBuffer::<u8>::new();
    system.run(&mut world, &mut cmd);
    // one deletion each for the parent, the child and the grandchild
    assert_eq!(cmd.len(), 3);
    cmd.write(&mut world);
    assert!(!world.is_alive(parent));
    assert!(!world.is_alive(child));
    assert!(!world.is_alive(grandchild));
}

#[test]
fn second_sync_changes_nothing() {
    let mut world = Store::new();
    let a = world.insert();
    let b = insert_with_parent(&mut world, a);
    let c = insert_with_parent(&mut world, b);
    sync(&mut world);
    let before: Vec<_> = [a, b, c]
        .iter()
        .map(|e| (world.is_alive(*e), world.parent(*e), world.previous_parent(*e), children_of(&world, *e)))
        .collect();
    let system = build_hierarchy_sync_system();
    let mut cmd = CommandBuffer::<u8>::new();
    system.run(&mut world, &mut cmd);
    assert!(cmd.is_empty());
    cmd.write(&mut world);
    let after: Vec<_> = [a, b, c]
        .iter()
        .map(|e| (world.is_alive(*e), world.parent(*e), world.previous_parent(*e), children_of(&world, *e)))
        .collect();
    assert_eq!(before, after);
}

#[test]
fn removing_the_parent_makes_a_root() {
    let mut world = Store::new();
    let a = world.insert();
    let b = insert_with_parent(&mut world, a);
    sync(&mut world);
    world.remove_parent(b);
    sync(&mut world);
    assert_eq!(children_of(&world, a).unwrap(), Vec::<Entity>::new());
    assert_eq!(world.previous_parent(b), Some(PreviousParent::new()));
    assert!(world.is_alive(b));
}

#[test]
fn a_directly_deleted_leaf_stays_listed() {
    // nothing visits a deleted entity, so its parent keeps listing it
    let mut world = Store::new();
    let a = world.insert();
    let b = insert_with_parent(&mut world, a);
    sync(&mut world);
    world.delete(b);
    sync(&mut world);
    assert!(world.is_alive(a));
    assert_eq!(children_of(&world, a).unwrap(), [b]);
}

#[test]
fn children_list_operations() {
    let e = |id| Entity::from_id(id);
    let mut list = Children::new();
    assert!(list.is_empty());
    list.push(e(3));
    list.push(e(5));
    list.push(e(3));
    list.push(e(7));
    assert_eq!(list.len(), 4);
    assert_eq!(list.to_vec(), [e(3), e(5), e(3), e(7)]);
    assert_eq!(list.get(1), Some(e(5)));
    assert_eq!(list.get(4), None);
    let copy = list.duplicate();
    list.remove(e(3));
    assert_eq!(list.to_vec(), [e(5), e(7)]);
    assert_eq!(copy.to_vec(), [e(3), e(5), e(3), e(7)]);
    let single = Children::from_single(e(9));
    assert_eq!(single.to_vec(), [e(9)]);
    // more than the four that fit inline
    let mut long = Children::new();
    for id in 0..10 {
        long.push(e(id));
    }
    assert_eq!(long.len(), 10);
    assert_eq!(long.get(9), Some(e(9)));
}

#[test]
fn parent_components() {
    let a = Entity::from_id(1);
    let b = Entity::from_id(2);
    let mut parent = Parent::new(a);
    assert_eq!(parent.entity(), a);
    assert_eq!(parent.replace(b), a);
    assert_eq!(parent.entity(), b);
    assert_eq!(PreviousParent::new().inner(), None);
    assert_eq!(PreviousParent::default().inner(), None);
    assert_eq!(PreviousParent::from_entity(a).inner(), Some(a));
    assert_eq!(a.index(), 1);
}
