//! Entities and the worlds that hold them.
use vstd::prelude::*;

verus! {

/// Something that lives in a world: it is updated, then drawn, each frame.
///
/// A kind of entity may say, by `updates_to` and `draws_to`, which states an
/// entity may be in after one update or one draw; its `update` and `draw`
/// keep to that. Where it does not say, any state may follow.
pub trait Entity: Sized {
    /// Whether `next` is a state this entity may be in after one update.
    open spec fn updates_to(self, next: Self) -> bool {
        true
    }

    /// Whether `next` is a state this entity may be in after one draw.
    open spec fn draws_to(self, next: Self) -> bool {
        true
    }

    fn update(&mut self)
        ensures
            (*old(self)).updates_to(*final(self)),
    ;

    fn draw(&mut self)
        ensures
            (*old(self)).draws_to(*final(self)),
    ;
}

/// Hands out world ids, each at most once: the ids handed out so far are
/// those below [`WorldIds::next`].
pub struct WorldIds {
    next: u32,
}

impl WorldIds {
    /// The id the source hands out next; every id below it was handed out.
    pub closed spec fn next(&self) -> nat {
        self.next as nat
    }

    /// A source that has handed out no id.
    pub fn new() -> (s: WorldIds)
        ensures
            s.next() == 0,
    {
        WorldIds { next: 0 }
    }

    /// Whether the source can hand out another id.
    pub fn can_issue(&self) -> (r: bool)
        ensures
            r == (self.next() < u32::MAX),
    {
        self.next < u32::MAX
    }

    fn take(&mut self) -> (id: u32)
        requires
            old(self).next() < u32::MAX,
        ensures
            id == old(self).next(),
            final(self).next() == old(self).next() + 1,
    {
        let id = self.next;
        self.next = self.next + 1;
        id
    }
}

/// Worlds made from the same source have different ids: an id handed out
/// before a source reached `next` differs from one handed out from then on.
pub proof fn lemma_world_ids_unique(earlier: u32, next: nat, later: u32)
    requires
        earlier < next,
        next <= later,
    ensures
        earlier != later,
{
}

/// Contains a collection of entities and handles updating and drawing them
pub struct World<E: Entity> {
    /// The world's id
    pub id: u32,
    /// All the entities in the world, in the order they were added
    pub entities: Vec<E>,
}

impl<E: Entity> World<E> {
    /// Creates a new world with no entities and an id that the source has
    /// not handed out before.
    pub fn new(ids: &mut WorldIds) -> (w: World<E>)
        requires
            old(ids).next() < u32::MAX,
        ensures
            w.id == old(ids).next(),
            final(ids).next() == old(ids).next() + 1,
            w.entities@.len() == 0,
    {
        let id = ids.take();
        World { id, entities: Vec::new() }
    }

    /// Adds a new entity to the world, after those already in it
    pub fn add_entity(&mut self, entity: E)
        ensures
            final(self).id == old(self).id,
            final(self).entities@ == old(self).entities@.push(entity),
    {
        self.entities.push(entity);
    }

    /// Runs [`Entity::update`] on each entity in the world, in order: each
    /// entity is then in a state its update leads to, at its own position.
    pub fn update(&mut self)
        ensures
            final(self).id == old(self).id,
            final(self).entities.len() == old(self).entities.len(),
            forall|k: int| 0 <= k < old(self).entities.len() ==>
                (#[trigger] old(self).entities@[k]).updates_to(final(self).entities@[k]),
    {
        let mut i: usize = 0;
        while i < self.entities.len()
            invariant
                i <= self.entities.len(),
                self.entities.len() == old(self).entities.len(),
                self.id == old(self).id,
                forall|k: int| 0 <= k < i ==> (#[trigger] old(self).entities@[k]).updates_to(self.entities@[k]),
                forall|k: int| i <= k < self.entities.len() ==> #[trigger] self.entities@[k] == old(self).entities@[k],
            decreases self.entities.len() - i,
        {
            let ghost before = self.entities@;
            let mut e = self.entities.remove(i);
            let ghost taken = e;
            e.update();
            self.entities.insert(i, e);
            proof {
                assert(taken == old(self).entities@[i as int]);
                assert forall|k: int| 0 <= k < i + 1 implies (#[trigger] old(self).entities@[k]).updates_to(self.entities@[k]) by {
                    if k < i {
                        assert(self.entities@[k] == before[k]);
                    }
                }
                assert forall|k: int| i + 1 <= k < self.entities.len() implies #[trigger] self.entities@[k] == old(self).entities@[k] by {
                    assert(self.entities@[k] == before[k]);
                }
            }
            i = i + 1;
        }
    }

    /// Runs [`Entity::draw`] on each entity in the world, in order: each
    /// entity is then in a state its draw leads to, at its own position.
    pub fn draw(&mut self)
        ensures
            final(self).id == old(self).id,
            final(self).entities.len() == old(self).entities.len(),
            forall|k: int| 0 <= k < old(self).entities.len() ==>
                (#[trigger] old(self).entities@[k]).draws_to(final(self).entities@[k]),
    {
        let mut i: usize = 0;
        while i < self.entities.len()
            invariant
                i <= self.entities.len(),
                self.entities.len() == old(self).entities.len(),
                self.id == old(self).id,
                forall|k: int| 0 <= k < i ==> (#[trigger] old(self).entities@[k]).draws_to(self.entities@[k]),
                forall|k: int| i <= k < self.entities.len() ==> #[trigger] self.entities@[k] == old(self).entities@[k],
            decreases self.entities.len() - i,
        {
            let ghost before = self.entities@;
            let mut e = self.entities.remove(i);
            let ghost taken = e;
            e.draw();
            self.entities.insert(i, e);
            proof {
                assert(taken == old(self).entities@[i as int]);
                assert forall|k: int| 0 <= k < i + 1 implies (#[trigger] old(self).entities@[k]).draws_to(self.entities@[k]) by {
                    if k < i {
                        assert(self.entities@[k] == before[k]);
                    }
                }
                assert forall|k: int| i + 1 <= k < self.entities.len() implies #[trigger] self.entities@[k] == old(self).entities@[k] by {
                    assert(self.entities@[k] == before[k]);
                }
            }
            i = i + 1;
        }
    }

    /// Whether two worlds are the same world: they have the same id.
    pub fn same_world(&self, other: &World<E>) -> (r: bool)
        ensures
            r == (self.id == other.id),
    {
        self.id == other.id
    }
}

} // verus!
