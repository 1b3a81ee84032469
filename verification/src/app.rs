//! The worlds of an application, and the one of them that is shown.
use vstd::prelude::*;
use crate::entities::{Entity, World};

verus! {

/// A world together with the render pipelines bound to it and the camera it
/// is seen through.
pub struct AppWorld<E: Entity, P, C> {
    /// The world holding the entities
    pub world: World<E>,
    /// The render pipelines that draw the world, in the order they were bound
    pub pipelines: Vec<P>,
    /// The camera the world is rendered with
    pub camera: C,
}

impl<E: Entity, P, C> AppWorld<E, P, C> {
    /// A world with its camera and no pipelines.
    pub fn new(world: World<E>, camera: C) -> (w: AppWorld<E, P, C>)
        ensures
            w.world == world,
            w.pipelines@ == Seq::<P>::empty(),
            w.camera == camera,
    {
        AppWorld { world, pipelines: Vec::new(), camera }
    }
}

/// The worlds of an application and the index of the one that is updated
/// and drawn each frame.
pub struct App<E: Entity, P, C> {
    worlds: Vec<AppWorld<E, P, C>>,
    active_world: usize,
}

impl<E: Entity, P, C> App<E, P, C> {
    /// The worlds, in the order they were added.
    pub closed spec fn worlds(&self) -> Seq<AppWorld<E, P, C>> {
        self.worlds@
    }

    /// The index of the active world; it need not name a world.
    pub closed spec fn active(&self) -> nat {
        self.active_world as nat
    }

    /// No worlds, and the index 0 as the active one.
    pub fn new() -> (a: App<E, P, C>)
        ensures
            a.worlds() == Seq::<AppWorld<E, P, C>>::empty(),
            a.active() == 0,
    {
        App { worlds: Vec::new(), active_world: 0 }
    }

    /// The number of worlds.
    pub fn world_count(&self) -> (n: usize)
        ensures
            n == self.worlds().len(),
    {
        self.worlds.len()
    }

    /// The index of the active world.
    pub fn active_world_index(&self) -> (i: usize)
        ensures
            i == self.active(),
    {
        self.active_world
    }

    /// Adds a world after the others and returns its index.
    pub fn add_world(&mut self, world: AppWorld<E, P, C>) -> (index: usize)
        requires
            old(self).worlds().len() < usize::MAX,
        ensures
            final(self).worlds() == old(self).worlds().push(world),
            index == old(self).worlds().len(),
            final(self).active() == old(self).active(),
    {
        self.worlds.push(world);
        self.worlds.len() - 1
    }

    /// Makes the world at `world` the one used from the next frame on.
    pub fn set_active_world(&mut self, world: usize)
        ensures
            final(self).worlds() == old(self).worlds(),
            final(self).active() == world,
    {
        self.active_world = world;
    }

    /// The world at `world`, if there is one.
    pub fn world(&self, world: usize) -> (r: Option<&AppWorld<E, P, C>>)
        ensures
            world < self.worlds().len() ==> r == Some(&self.worlds()[world as int]),
            world >= self.worlds().len() ==> r is None,
    {
        if world < self.worlds.len() {
            Some(&self.worlds[world])
        } else {
            None
        }
    }

    /// The active world, if its index names one.
    pub fn active_app_world(&self) -> (r: Option<&AppWorld<E, P, C>>)
        ensures
            self.active() < self.worlds().len() ==> r == Some(&self.worlds()[self.active() as int]),
            self.active() >= self.worlds().len() ==> r is None,
    {
        self.world(self.active_world)
    }

    /// Binds a render pipeline to the world at `world`, after its others.
    pub fn add_render_pipeline(&mut self, world: usize, pipeline: P)
        requires
            world < old(self).worlds().len(),
        ensures
            final(self).active() == old(self).active(),
            final(self).worlds().len() == old(self).worlds().len(),
            forall|j: int|
                0 <= j < old(self).worlds().len() && j != world ==> #[trigger] final(self).worlds()[j]
                    == old(self).worlds()[j],
            final(self).worlds()[world as int].world == old(self).worlds()[world as int].world,
            final(self).worlds()[world as int].camera == old(self).worlds()[world as int].camera,
            final(self).worlds()[world as int].pipelines@ == old(self).worlds()[world as int].pipelines@.push(
                pipeline,
            ),
    {
        let mut w = self.worlds.remove(world);
        w.pipelines.push(pipeline);
        self.worlds.insert(world, w);
    }

    /// Sets the camera of the world at `world`.
    pub fn set_world_camera(&mut self, world: usize, camera: C)
        requires
            world < old(self).worlds().len(),
        ensures
            final(self).active() == old(self).active(),
            final(self).worlds().len() == old(self).worlds().len(),
            forall|j: int|
                0 <= j < old(self).worlds().len() && j != world ==> #[trigger] final(self).worlds()[j]
                    == old(self).worlds()[j],
            final(self).worlds()[world as int].world == old(self).worlds()[world as int].world,
            final(self).worlds()[world as int].pipelines@ == old(self).worlds()[world as int].pipelines@,
            final(self).worlds()[world as int].camera == camera,
    {
        let mut w = self.worlds.remove(world);
        w.camera = camera;
        self.worlds.insert(world, w);
    }

    /// The world step of a frame: where the active index names a world, its
    /// entities are updated and then drawn (each through its update step,
    /// then its draw step), and `true` says that the frame is
    /// to be rendered with its pipelines; otherwise nothing changes.
    pub fn update_active_world(&mut self) -> (shown: bool)
        ensures
            shown == (old(self).active() < old(self).worlds().len()),
            final(self).active() == old(self).active(),
            final(self).worlds().len() == old(self).worlds().len(),
            forall|j: int|
                0 <= j < old(self).worlds().len() && j != old(self).active() ==> #[trigger] final(self).worlds()[j] == old(self).worlds()[j],
            !shown ==> final(self).worlds() == old(self).worlds(),
            shown ==> {
                let a = old(self).active() as int;
                &&& final(self).worlds()[a].pipelines@ == old(self).worlds()[a].pipelines@
                &&& final(self).worlds()[a].camera == old(self).worlds()[a].camera
                &&& final(self).worlds()[a].world.id == old(self).worlds()[a].world.id
                &&& final(self).worlds()[a].world.entities.len()
                    == old(self).worlds()[a].world.entities.len()
                &&& exists|mid: Seq<E>| {
                    &&& mid.len() == old(self).worlds()[a].world.entities.len()
                    &&& forall|k: int| 0 <= k < mid.len() ==>
                        (#[trigger] old(self).worlds()[a].world.entities@[k]).updates_to(mid[k])
                            && mid[k].draws_to(final(self).worlds()[a].world.entities@[k])
                }
            },
    {
        if self.active_world >= self.worlds.len() {
            return false;
        }
        let i = self.active_world;
        let mut w = self.worlds.remove(i);
        let ghost start = w.world.entities@;
        w.world.update();
        let ghost mid = w.world.entities@;
        w.world.draw();
        self.worlds.insert(i, w);
        proof {
            assert(start == old(self).worlds()[i as int].world.entities@);
            assert(self.worlds()[i as int].world.entities@ == w.world.entities@);
            assert(forall|k: int| 0 <= k < mid.len() ==>
                (#[trigger] start[k]).updates_to(mid[k]) && mid[k].draws_to(w.world.entities@[k]));
        }
        true
    }
}

/// A world added to the application is found at the index that adding it
/// returned, and the worlds added before keep their indices.
pub proof fn lemma_added_world_found<E: Entity, P, C>(
    before: Seq<AppWorld<E, P, C>>,
    world: AppWorld<E, P, C>,
    index: int,
)
    requires
        index == before.len(),
    ensures
        0 <= index < before.push(world).len(),
        before.push(world)[index] == world,
        forall|j: int| 0 <= j < before.len() ==> #[trigger] before.push(world)[j] == before[j],
{
}

} // verus!
