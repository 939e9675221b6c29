use vstd::prelude::*;

use crate::system::{apply_deferred, System, SystemFn};
use crate::world::{World, WorldData};

verus! {

/// What the system table holds: for each identifier, whether the system
/// was initialized, and the system itself.
pub uninterp spec fn table_entries(t: SystemTable) -> Map<u32, (bool, System)>;

/// The stored systems, keyed by the number of their identifier.
#[verifier::external_body]
pub struct SystemTable {
    map: bevy_utils::HashMap<u32, (bool, System)>,
}

impl SystemTable {
    /// Relies on `bevy_utils::HashMap::default` (hashbrown's `Default`):
    /// a map with no entries.
    #[verifier::external_body]
    fn new() -> (r: SystemTable)
        ensures
            forall|k: u32| !#[trigger] table_entries(r).contains_key(k),
    {
        SystemTable { map: bevy_utils::HashMap::default() }
    }

    /// Relies on `hashbrown::HashMap::insert`: the key maps to the value
    /// afterwards, replacing any value it had.
    #[verifier::external_body]
    fn insert(&mut self, k: u32, v: (bool, System))
        ensures
            table_entries(*final(self)) == table_entries(*old(self)).insert(k, v),
    {
        self.map.insert(k, v);
    }

    /// Relies on `hashbrown::HashMap::remove`: the key's entry is taken out
    /// and handed back, if there was one.
    #[verifier::external_body]
    fn remove(&mut self, k: u32) -> (r: Option<(bool, System)>)
        ensures
            table_entries(*final(self)) == table_entries(*old(self)).remove(k),
            r == (if table_entries(*old(self)).contains_key(k) {
                Some(table_entries(*old(self))[k])
            } else {
                None
            }),
    {
        self.map.remove(&k)
    }
}

/// Identifies a system registered in a [`SystemRegistry`].
#[derive(Clone, Copy, Debug, PartialEq, Eq, Structural)]
pub struct SystemId(u32);

impl SystemId {
    /// The number this identifier stands for.
    pub closed spec fn raw(self) -> u32 {
        self.0
    }

    /// The number this identifier stands for.
    pub fn index(&self) -> (r: u32)
        ensures
            r == self.raw(),
    {
        self.0
    }
}

/// An operation on a [`SystemRegistry`] failed.
#[derive(Clone, Copy, Debug, PartialEq, Eq, Structural)]
pub enum SystemRegistryError {
    /// A system was run by identifier, but no system has that identifier.
    SystemIdNotRegistered(SystemId),
}

/// Stores systems under identifiers that are never reused, so that they
/// can be run again with their cached state.
pub struct SystemRegistry {
    last_id: u32,
    systems: SystemTable,
}

impl SystemRegistry {
    /// Every stored identifier was handed out: none is above `last_id`.
    pub open spec fn wf(self) -> bool {
        forall|k: u32| #[trigger] self.entries().contains_key(k) ==> 0 < k <= self.last_id()
    }

    /// The last identifier handed out (zero before the first).
    pub closed spec fn last_id(self) -> u32 {
        self.last_id
    }

    /// The stored systems: for each identifier's number, whether the system
    /// was initialized, and the system with its cached state.
    pub closed spec fn entries(self) -> Map<u32, (bool, System)> {
        table_entries(self.systems)
    }

    /// The system stored under `k`, initialized if it was not yet.
    pub open spec fn prepared(self, k: u32) -> System {
        let (initialized, s) = self.entries()[k];
        if initialized {
            s
        } else {
            s.initialized()
        }
    }

    /// What running `id` needs: a registered system whose body can run.
    pub open spec fn can_run_by_id(self, id: SystemId, d: WorldData) -> bool {
        self.entries().contains_key(id.raw()) ==> self.prepared(id.raw()).can_run(d)
    }

    /// The outcome of running `id` on the world data `d`: `next` is the
    /// registry after it, `d2` the world data and `r` the result.
    pub open spec fn ran_by_id(
        self,
        next: SystemRegistry,
        d: WorldData,
        d2: WorldData,
        id: SystemId,
        r: Result<(), SystemRegistryError>,
    ) -> bool {
        &&& next.last_id() == self.last_id()
        &&& if self.entries().contains_key(id.raw()) {
            let s = self.prepared(id.raw());
            &&& r == Ok::<(), SystemRegistryError>(())
            &&& next.entries() == self.entries().insert(id.raw(), (true, s.ran(d)))
            &&& d2 == s.stepped(d)
        } else {
            &&& r == Err::<(), SystemRegistryError>(SystemRegistryError::SystemIdNotRegistered(id))
            &&& next.entries() == self.entries()
            &&& d2 == d
        }
    }

    /// `next` is this registry after removing `id`.
    pub open spec fn removed(self, next: SystemRegistry, id: SystemId) -> bool {
        &&& next.last_id() == self.last_id()
        &&& next.entries() == self.entries().remove(id.raw())
    }

    /// A registry with no systems.
    pub fn new() -> (r: SystemRegistry)
        ensures
            r.wf(),
            r.last_id() == 0,
            r.entries() == Map::<u32, (bool, System)>::empty(),
    {
        let r = SystemRegistry { last_id: 0, systems: SystemTable::new() };
        assert(r.entries() =~= Map::<u32, (bool, System)>::empty());
        r
    }

    /// Registers a system under a new identifier, so it can be run later.
    /// Each call makes a new entry, also for logic registered before.
    pub fn register(&mut self, system: SystemFn) -> (r: SystemId)
        requires
            old(self).wf(),
            old(self).last_id() < u32::MAX,
        ensures
            final(self).wf(),
            r.raw() == old(self).last_id() + 1,
            final(self).last_id() == r.raw(),
            !old(self).entries().contains_key(r.raw()),
            final(self).entries() == old(self).entries().insert(
                r.raw(),
                (false, System::fresh(system)),
            ),
    {
        let id = self.last_id + 1;
        self.last_id = id;
        self.systems.insert(id, (false, System::into_system(system)));
        proof {
            assert forall|k: u32| #[trigger] self.entries().contains_key(k) implies 0 < k
                <= self.last_id() by {
                if k != id {
                    assert(old(self).entries().contains_key(k));
                }
            }
        }
        SystemId(id)
    }

    /// Removes a registered system; does nothing if `id` is not registered.
    pub fn remove(&mut self, id: SystemId)
        requires
            old(self).wf(),
        ensures
            final(self).wf(),
            old(self).removed(*final(self), id),
    {
        let _ = self.systems.remove(id.0);
    }

    /// Runs a fresh system with the given logic on the world once: it is
    /// built, initialized, run, its queued changes applied, and dropped.
    pub fn run(&mut self, world: &mut World, system: SystemFn)
        requires
            System::fresh(system).initialized().can_run(old(world).data),
        ensures
            *final(self) == *old(self),
            final(world).registry == old(world).registry,
            final(world).data == System::fresh(system).initialized().stepped(old(world).data),
    {
        let mut boxed_system = System::into_system(system);
        boxed_system.initialize(&world.data);
        let queue = boxed_system.run(&mut world.data);
        apply_deferred(&mut world.data, &queue);
    }

    /// Runs the system registered under `id`, initializing it on its first
    /// run, and applies what it queued.
    pub fn run_by_id(&mut self, world: &mut World, id: SystemId) -> (r: Result<
        (),
        SystemRegistryError,
    >)
        requires
            old(self).wf(),
            old(self).can_run_by_id(id, old(world).data),
        ensures
            final(self).wf(),
            final(world).registry == old(world).registry,
            old(self).ran_by_id(*final(self), old(world).data, final(world).data, id, r),
    {
        match self.systems.remove(id.0) {
            Some(entry) => {
                let (initialized, mut matching_system) = entry;
                if !initialized {
                    matching_system.initialize(&world.data);
                }
                let queue = matching_system.run(&mut world.data);
                apply_deferred(&mut world.data, &queue);
                self.systems.insert(id.0, (true, matching_system));
                proof {
                    assert(self.entries() =~= old(self).entries().insert(
                        id.raw(),
                        (true, matching_system),
                    ));
                }
                Ok(())
            },
            None => {
                assert(self.entries() =~= old(self).entries());
                Err(SystemRegistryError::SystemIdNotRegistered(id))
            },
        }
    }
}

impl Default for SystemRegistry {
    /// A registry with no systems.
    fn default() -> (r: SystemRegistry)
        ensures
            r.wf(),
            r.last_id() == 0,
            r.entries() == Map::<u32, (bool, System)>::empty(),
    {
        SystemRegistry::new()
    }
}

} // verus!
