//! The deferred mutation buffer: operations recorded while a stage reads the
//! store, applied to it in submission order when the buffer is flushed.
//!
//! The buffer takes what the stages defer: the derived components, which it
//! can give to an entity or take away from it, and deletions.

use vstd::prelude::*;
use crate::ecs::entity::Entity;
use crate::ecs::view::{EntityView, WorldView};
use crate::ecs::world::World;
use crate::transform::components::children::Children;
use crate::transform::components::previous_parent::PreviousParent;

verus! {

/// The kinds of component that the stages derive, and that the buffer can
/// take away from an entity.
#[derive(Clone, Copy, Debug, PartialEq, Eq, Structural, Hash)]
pub enum ComponentKind {
    /// The `PreviousParent`.
    PreviousParent,
    /// The `Children`.
    Children,
    /// The transform relative to the parent.
    ParentTransform,
    /// The transform relative to the world.
    WorldTransform,
}

/// One recorded operation.
pub enum Command<M> {
    /// Give the entity this `PreviousParent`.
    AddPreviousParent(Entity, PreviousParent),
    /// Give the entity this `Children`.
    AddChildren(Entity, Children),
    /// Give the entity this transform relative to its parent.
    AddParentTransform(Entity, M),
    /// Give the entity this transform relative to the world.
    AddWorldTransform(Entity, M),
    /// Take the component of the given kind away from the entity.
    Remove(Entity, ComponentKind),
    /// Delete the entity with all its components.
    Delete(Entity),
}

/// One recorded operation, as specifications see it.
#[verifier::ext_equal]
pub enum CommandView<M> {
    /// Give the entity this `PreviousParent`.
    AddPreviousParent(Entity, PreviousParent),
    /// Give the entity a `Children` with these identifiers.
    AddChildren(Entity, Seq<usize>),
    /// Give the entity this transform relative to its parent.
    AddParentTransform(Entity, M),
    /// Give the entity this transform relative to the world.
    AddWorldTransform(Entity, M),
    /// Take the component of the given kind away from the entity.
    Remove(Entity, ComponentKind),
    /// Delete the entity with all its components.
    Delete(Entity),
}

impl<M> CommandView<M> {
    /// The entity that the operation is about.
    pub open spec fn target(self) -> Entity {
        match self {
            CommandView::AddPreviousParent(e, _) => e,
            CommandView::AddChildren(e, _) => e,
            CommandView::AddParentTransform(e, _) => e,
            CommandView::AddWorldTransform(e, _) => e,
            CommandView::Remove(e, _) => e,
            CommandView::Delete(e) => e,
        }
    }
}

impl<M> Command<M> {
    /// The operation with its child list taken as a sequence.
    pub open spec fn view(&self) -> CommandView<M> {
        match *self {
            Command::AddPreviousParent(e, p) => CommandView::AddPreviousParent(e, p),
            Command::AddChildren(e, c) => CommandView::AddChildren(e, c@),
            Command::AddParentTransform(e, t) => CommandView::AddParentTransform(e, t),
            Command::AddWorldTransform(e, t) => CommandView::AddWorldTransform(e, t),
            Command::Remove(e, k) => CommandView::Remove(e, k),
            Command::Delete(e) => CommandView::Delete(e),
        }
    }
}

/// What one operation does to the components of one entity: an operation
/// about another entity, or about one that is not alive, does nothing.
pub open spec fn enact<P, R, M>(
    v: Option<EntityView<P, R, M>>,
    id: usize,
    c: CommandView<M>,
) -> Option<EntityView<P, R, M>> {
    match v {
        None => None,
        Some(r) => if c.target().id != id {
            v
        } else {
            match c {
                CommandView::AddPreviousParent(_, p) => Some(
                    EntityView { previous_parent: Some(p), ..r },
                ),
                CommandView::AddChildren(_, s) => Some(EntityView { children: Some(s), ..r }),
                CommandView::AddParentTransform(_, t) => Some(
                    EntityView { parent_transform: Some(t), ..r },
                ),
                CommandView::AddWorldTransform(_, t) => Some(
                    EntityView { world_transform: Some(t), ..r },
                ),
                CommandView::Remove(_, k) => Some(
                    match k {
                        ComponentKind::PreviousParent => EntityView { previous_parent: None, ..r },
                        ComponentKind::Children => EntityView { children: None, ..r },
                        ComponentKind::ParentTransform => EntityView {
                            parent_transform: None,
                            ..r
                        },
                        ComponentKind::WorldTransform => EntityView { world_transform: None, ..r },
                    },
                ),
                CommandView::Delete(_) => None,
            }
        },
    }
}

/// What a list of operations, applied first to last, does to the components
/// of one entity.
pub open spec fn enact_all<P, R, M>(
    v: Option<EntityView<P, R, M>>,
    id: usize,
    cmds: Seq<CommandView<M>>,
) -> Option<EntityView<P, R, M>>
    decreases cmds.len(),
{
    if cmds.len() == 0 {
        v
    } else {
        enact(enact_all(v, id, cmds.drop_last()), id, cmds.last())
    }
}

/// The operations do to every entity, whatever it holds, what `effect` says
/// of it.
pub open spec fn acts_as<P, R, M>(
    cmds: Seq<CommandView<M>>,
    effect: spec_fn(usize, EntityView<P, R, M>) -> Option<EntityView<P, R, M>>,
) -> bool {
    forall|id: usize, v: EntityView<P, R, M>| #[trigger] enact_all(Some(v), id, cmds) == effect(id, v)
}

/// The store after a list of operations is applied to it, first to last.
pub open spec fn flushed<P, R, M>(w: WorldView<P, R, M>, cmds: Seq<CommandView<M>>) -> WorldView<
    P,
    R,
    M,
> {
    WorldView {
        entities: Seq::new(w.entities.len(), |i: int| enact_all(w.entities[i], i as usize, cmds)),
    }
}

/// Applying no operation changes nothing.
pub proof fn lemma_flushed_empty<P, R, M>(w: WorldView<P, R, M>)
    ensures
        flushed(w, Seq::<CommandView<M>>::empty()) == w,
{
    assert(flushed(w, Seq::<CommandView<M>>::empty()).entities =~= w.entities);
}

/// Applying one more operation at the end applies it to the store that the
/// others left.
pub proof fn lemma_flushed_push<P, R, M>(
    w: WorldView<P, R, M>,
    cmds: Seq<CommandView<M>>,
    c: CommandView<M>,
)
    ensures
        flushed(w, cmds.push(c)).entities.len() == w.entities.len(),
        forall|i: int|
            0 <= i < w.entities.len() ==> #[trigger] flushed(w, cmds.push(c)).entities[i] == enact(
                flushed(w, cmds).entities[i],
                i as usize,
                c,
            ),
{
    assert(cmds.push(c).drop_last() =~= cmds);
}

/// An entity that is not alive stays so, whatever is applied.
pub proof fn lemma_enact_all_dead<P, R, M>(id: usize, cmds: Seq<CommandView<M>>)
    ensures
        enact_all(None::<EntityView<P, R, M>>, id, cmds) is None,
    decreases cmds.len(),
{
    if cmds.len() > 0 {
        lemma_enact_all_dead::<P, R, M>(id, cmds.drop_last());
    }
}

/// Applying two lists one after the other is applying their concatenation.
pub proof fn lemma_enact_all_concat<P, R, M>(
    v: Option<EntityView<P, R, M>>,
    id: usize,
    a: Seq<CommandView<M>>,
    b: Seq<CommandView<M>>,
)
    ensures
        enact_all(v, id, a + b) == enact_all(enact_all(v, id, a), id, b),
    decreases b.len(),
{
    if b.len() == 0 {
        assert(a + b =~= a);
    } else {
        assert((a + b).drop_last() =~= a + b.drop_last());
        assert((a + b).last() == b.last());
        lemma_enact_all_concat(v, id, a, b.drop_last());
    }
}

/// Applying one more operation at the end applies it to what the others
/// left of the entity.
pub proof fn lemma_enact_all_push<P, R, M>(
    v: Option<EntityView<P, R, M>>,
    id: usize,
    cmds: Seq<CommandView<M>>,
    c: CommandView<M>,
)
    ensures
        enact_all(v, id, cmds.push(c)) == enact(enact_all(v, id, cmds), id, c),
{
    assert(cmds.push(c).drop_last() =~= cmds);
}

/// The deferred mutation buffer.
pub struct CommandBuffer<M> {
    commands: Vec<Command<M>>,
}

impl<M> CommandBuffer<M> {
    /// The recorded operations, in submission order.
    pub closed spec fn view(&self) -> Seq<CommandView<M>> {
        self.commands@.map_values(|c: Command<M>| c@)
    }

    /// Create an empty buffer.
    pub fn new() -> (b: Self)
        ensures
            b@ == Seq::<CommandView<M>>::empty(),
    {
        let b = CommandBuffer { commands: Vec::new() };
        assert(b@ =~= Seq::<CommandView<M>>::empty());
        b
    }

    /// How many operations are recorded.
    pub fn len(&self) -> (n: usize)
        ensures
            n == self@.len(),
    {
        self.commands.len()
    }

    /// Whether no operation is recorded.
    pub fn is_empty(&self) -> (b: bool)
        ensures
            b == (self@.len() == 0),
    {
        self.commands.len() == 0
    }

    /// Record an operation behind the others.
    pub fn record(&mut self, command: Command<M>)
        ensures
            final(self)@ == old(self)@.push(command@),
    {
        self.commands.push(command);
        assert(self@ =~= old(self)@.push(command@));
    }

    /// Record that the entity gets this `PreviousParent`.
    pub fn add_previous_parent(&mut self, entity: Entity, previous: PreviousParent)
        ensures
            final(self)@ == old(self)@.push(CommandView::AddPreviousParent(entity, previous)),
    {
        self.record(Command::AddPreviousParent(entity, previous));
    }

    /// Record that the entity gets this `Children`.
    pub fn add_children(&mut self, entity: Entity, children: Children)
        ensures
            final(self)@ == old(self)@.push(CommandView::AddChildren(entity, children@)),
    {
        self.record(Command::AddChildren(entity, children));
    }

    /// Record that the entity gets this transform relative to its parent.
    pub fn add_parent_transform(&mut self, entity: Entity, transform: M)
        ensures
            final(self)@ == old(self)@.push(CommandView::AddParentTransform(entity, transform)),
    {
        self.record(Command::AddParentTransform(entity, transform));
    }

    /// Record that the entity gets this transform relative to the world.
    pub fn add_world_transform(&mut self, entity: Entity, transform: M)
        ensures
            final(self)@ == old(self)@.push(CommandView::AddWorldTransform(entity, transform)),
    {
        self.record(Command::AddWorldTransform(entity, transform));
    }

    /// Record that the component of the given kind is taken away from the
    /// entity.
    pub fn remove_component(&mut self, entity: Entity, kind: ComponentKind)
        ensures
            final(self)@ == old(self)@.push(CommandView::Remove(entity, kind)),
    {
        self.record(Command::Remove(entity, kind));
    }

    /// Record that the entity is deleted.
    pub fn delete(&mut self, entity: Entity)
        ensures
            final(self)@ == old(self)@.push(CommandView::Delete(entity)),
    {
        self.record(Command::Delete(entity));
    }

    /// Hand out the recorded operations in submission order, for a store of
    /// another kind to apply, and leave the buffer empty.
    pub fn drain(&mut self) -> (commands: Vec<Command<M>>)
        ensures
            commands@.map_values(|c: Command<M>| c@) == old(self)@,
            final(self)@ == Seq::<CommandView<M>>::empty(),
    {
        let mut commands: Vec<Command<M>> = Vec::new();
        core::mem::swap(&mut self.commands, &mut commands);
        assert(self@ =~= Seq::<CommandView<M>>::empty());
        commands
    }

    /// Flush the buffer: apply the recorded operations to the store in
    /// submission order, and leave the buffer empty.
    pub fn write<P, R>(&mut self, world: &mut World<P, R, M>)
        ensures
            final(world)@ == flushed(old(world)@, old(self)@),
            final(self)@ == Seq::<CommandView<M>>::empty(),
    {
        let mut commands: Vec<Command<M>> = Vec::new();
        core::mem::swap(&mut self.commands, &mut commands);
        assert(self@ =~= Seq::<CommandView<M>>::empty());
        let ghost all = old(self)@;
        let ghost start = old(world)@;
        proof {
            lemma_flushed_empty(start);
            assert(all.take(0) =~= Seq::<CommandView<M>>::empty());
        }
        for command in it: commands.into_iter()
            invariant
                it.seq().map_values(|c: Command<M>| c@) == all,
                world@ == flushed(start, all.take(it.index() as int)),
        {
            let ghost k = it.index() as int;
            proof {
                assert(all.take(k + 1) =~= all.take(k).push(all[k]));
                lemma_flushed_push(start, all.take(k), all[k]);
                assert(command@ == all[k]);
            }
            apply(world, command);
            assert(world@.entities =~= flushed(start, all.take(k + 1)).entities);
        }
        assert(all.take(all.len() as int) =~= all);
    }
}

/// Apply one operation to the store.
fn apply<P, R, M>(world: &mut World<P, R, M>, command: Command<M>)
    ensures
        final(world)@.entities.len() == old(world)@.entities.len(),
        forall|i: int|
            0 <= i < old(world)@.entities.len() ==> #[trigger] final(world)@.entities[i] == enact(
                old(world)@.entities[i],
                i as usize,
                command@,
            ),
{
    let _handed_out = world.len();
    match command {
        Command::AddPreviousParent(e, p) => {
            world.set_previous_parent(e, p);
        },
        Command::AddChildren(e, c) => {
            world.set_children(e, c);
        },
        Command::AddParentTransform(e, t) => {
            world.set_parent_transform(e, t);
        },
        Command::AddWorldTransform(e, t) => {
            world.set_world_transform(e, t);
        },
        Command::Remove(e, k) => {
            match k {
                ComponentKind::PreviousParent => {
                    world.remove_previous_parent(e);
                },
                ComponentKind::Children => {
                    world.remove_children(e);
                },
                ComponentKind::ParentTransform => {
                    world.remove_parent_transform(e);
                },
                ComponentKind::WorldTransform => {
                    world.remove_world_transform(e);
                },
            }
        },
        Command::Delete(e) => {
            world.delete(e);
        },
    }
}

} // verus!
