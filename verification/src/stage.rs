//! The entities that the screens own.

use bevy::ecs::entity::Entity;
use vstd::prelude::*;

verus! {

/// The engine's handle of an entity, `bevy::ecs::entity::Entity`. The library
/// stores and hands back such handles and never looks inside one.
#[verifier::external_type_specification]
#[verifier::external_body]
pub struct ExEntity(bevy::ecs::entity::Entity);

/// The top-level screens. Exactly one is showing at a time.
#[derive(Clone, Copy, Debug, PartialEq, Eq, Hash, Structural)]
pub enum AppState {
    Splash,
    Menu,
    Game,
}

impl Default for AppState {
    /// The screen that shows first.
    fn default() -> (state: AppState)
        ensures
            state == AppState::Menu,
    {
        AppState::Menu
    }
}

/// An entity together with the screen that owns it.
#[derive(Clone, Copy, Debug)]
pub struct ScreenEntity {
    /// The engine's handle.
    pub entity: Entity,
    /// The screen whose exit destroys the entity.
    pub owner: AppState,
}

/// The entities of `entities` that `tag` does not own, in their order.
pub open spec fn others(entities: Seq<ScreenEntity>, tag: AppState) -> Seq<ScreenEntity> {
    entities.filter(|e: ScreenEntity| e.owner != tag)
}

/// The handles of the entities of `entities` that `tag` owns, in their order.
pub open spec fn handles_of(entities: Seq<ScreenEntity>, tag: AppState) -> Seq<Entity> {
    entities.filter(|e: ScreenEntity| e.owner == tag).map_values(|e: ScreenEntity| e.entity)
}

/// The record of what is on stage: every entity that a screen spawned as
/// its own and that has not been despawned yet, oldest first.
pub struct Stage {
    entities: Vec<ScreenEntity>,
}

impl View for Stage {
    type V = Seq<ScreenEntity>;

    closed spec fn view(&self) -> Seq<ScreenEntity> {
        self.entities@
    }
}

impl Stage {
    /// An empty stage.
    pub fn new() -> (stage: Stage)
        ensures
            stage@ == Seq::<ScreenEntity>::empty(),
    {
        Stage { entities: Vec::new() }
    }

    /// Records that `entity` was spawned and belongs to `owner`.
    pub fn spawn(&mut self, entity: Entity, owner: AppState)
        ensures
            final(self)@ == old(self)@.push(ScreenEntity { entity, owner }),
    {
        self.entities.push(ScreenEntity { entity, owner });
    }

    /// How many entities are on stage.
    pub fn len(&self) -> (n: usize)
        ensures
            n == self@.len(),
    {
        self.entities.len()
    }

    /// The entity at place `i`, counting from the oldest.
    pub fn get(&self, i: usize) -> (found: Option<ScreenEntity>)
        ensures
            found == if i < self@.len() {
                Some(self@[i as int])
            } else {
                None
            },
    {
        if i < self.entities.len() {
            Some(self.entities[i])
        } else {
            None
        }
    }

    /// How many entities on stage `tag` owns.
    pub fn count(&self, tag: AppState) -> (n: usize)
        ensures
            n == handles_of(self@, tag).len(),
    {
        let mut n: usize = 0;
        let mut i: usize = 0;
        while i < self.entities.len()
            invariant
                i <= self.entities.len(),
                n <= i,
                n == handles_of(self.entities@.take(i as int), tag).len(),
            decreases self.entities.len() - i,
        {
            proof {
                lemma_take_push(self.entities@, i as int, tag);
            }
            if self.entities[i].owner == tag {
                n += 1;
            }
            i += 1;
        }
        assert(self.entities@.take(i as int) == self.entities@);
        n
    }
}

/// Splitting a stage by owner goes entity by entity: the first `i + 1`
/// entities split as the first `i` do, with the next one added to its side.
proof fn lemma_take_push(entities: Seq<ScreenEntity>, i: int, tag: AppState)
    requires
        0 <= i < entities.len(),
    ensures
        others(entities.take(i + 1), tag) == if entities[i].owner != tag {
            others(entities.take(i), tag).push(entities[i])
        } else {
            others(entities.take(i), tag)
        },
        handles_of(entities.take(i + 1), tag) == if entities[i].owner == tag {
            handles_of(entities.take(i), tag).push(entities[i].entity)
        } else {
            handles_of(entities.take(i), tag)
        },
{
    reveal(Seq::filter);
    assert(entities.take(i + 1).drop_last() == entities.take(i));
}

/// Despawning a screen is complete and harms no other: of what stays
/// nothing is owned by `tag`, every entity either stays or is handed out,
/// and where `tag` owns nothing the stage stays as it is.
pub proof fn lemma_despawn_complete(entities: Seq<ScreenEntity>, tag: AppState)
    ensures
        forall|i: int|
            0 <= i < others(entities, tag).len() ==> (#[trigger] others(entities, tag)[i]).owner
                != tag,
        forall|i: int|
            0 <= i < others(entities, tag).len() ==> entities.contains(
                #[trigger] others(entities, tag)[i],
            ),
        others(entities, tag).len() + handles_of(entities, tag).len() == entities.len(),
        handles_of(entities, tag).len() == 0 ==> others(entities, tag) == entities,
        handles_of(others(entities, tag), tag).len() == 0,
    decreases entities.len(),
{
    if entities.len() > 0 {
        let front = entities.drop_last();
        let last = entities.len() - 1;
        lemma_despawn_complete(front, tag);
        assert(entities.take(last) == front);
        assert(entities.take(last + 1) == entities);
        lemma_take_push(entities, last, tag);
        let rest = others(entities, tag);
        assert forall|i: int| 0 <= i < rest.len() implies entities.contains(#[trigger] rest[i]) by {
            if i < others(front, tag).len() {
                let j = choose|j: int| 0 <= j < front.len() && front[j] == others(front, tag)[i];
                assert(entities[j] == rest[i]);
            } else {
                assert(entities[last] == rest[i]);
            }
        }
        if entities.last().owner != tag {
            assert(rest.take(rest.len() - 1) == others(front, tag));
            assert(rest.take(rest.len() as int) == rest);
            lemma_take_push(rest, rest.len() - 1, tag);
        }
    } else {
        reveal(Seq::filter);
    }
}

/// Despawns the screen `tag`: takes every entity that `tag` owns off the
/// stage and returns their handles, oldest first, for the engine to destroy.
/// The entities of other screens stay, in their order.
pub fn despawn_screen(stage: &mut Stage, tag: AppState) -> (despawned: Vec<Entity>)
    ensures
        final(stage)@ == others(old(stage)@, tag),
        despawned@ == handles_of(old(stage)@, tag),
{
    let mut kept: Vec<ScreenEntity> = Vec::new();
    let mut despawned: Vec<Entity> = Vec::new();
    let mut i: usize = 0;
    while i < stage.entities.len()
        invariant
            i <= stage.entities.len(),
            stage.entities@ == old(stage).entities@,
            kept@ == others(stage.entities@.take(i as int), tag),
            despawned@ == handles_of(stage.entities@.take(i as int), tag),
        decreases stage.entities.len() - i,
    {
        proof {
            lemma_take_push(stage.entities@, i as int, tag);
        }
        let e = stage.entities[i];
        if e.owner == tag {
            despawned.push(e.entity);
        } else {
            kept.push(e);
        }
        i += 1;
    }
    assert(stage.entities@.take(i as int) == stage.entities@);
    stage.entities = kept;
    despawned
}

} // verus!
