use vstd::prelude::*;

use crate::registry::{SystemId, SystemRegistry, SystemRegistryError};
use crate::system::{System, SystemFn};

verus! {

/// A counter held as a resource of the world.
#[derive(Clone, Copy, Debug, PartialEq, Eq, Structural)]
pub struct Counter(pub u8);

/// What systems read and write: the resources, the change tick and the
/// number of entities.
#[derive(Clone, Copy, Debug, PartialEq, Eq, Structural)]
pub struct WorldData {
    /// The `Counter` resource, if present.
    pub counter: Option<Counter>,
    /// The non-send `Counter` resource, if present.
    pub non_send_counter: Option<Counter>,
    /// The change-detector resource, if present: the tick of its last change.
    pub change_detector: Option<u64>,
    /// The world's current change tick.
    pub change_tick: u64,
    /// How many entities exist.
    pub entities: u32,
}

/// The world: its data, and the registry of systems, which is taken out
/// while a one-shot run uses it.
pub struct World {
    pub data: WorldData,
    pub registry: Option<SystemRegistry>,
}

impl World {
    /// The registry is in place and well formed.
    pub open spec fn has_registry(self) -> bool {
        self.registry.is_some() && self.registry.unwrap().wf()
    }

    /// The registry, where it is in place.
    pub open spec fn reg(self) -> SystemRegistry {
        self.registry.unwrap()
    }

    /// `next` is this world after registering `system` under `id`.
    pub open spec fn registered(self, next: World, system: SystemFn, id: SystemId) -> bool {
        &&& next.data == self.data
        &&& next.has_registry()
        &&& id.raw() == self.reg().last_id() + 1
        &&& next.reg().last_id() == id.raw()
        &&& !self.reg().entries().contains_key(id.raw())
        &&& next.reg().entries() == self.reg().entries().insert(
            id.raw(),
            (false, System::fresh(system)),
        )
    }

    /// `next` is this world after one ad hoc run of `system`.
    pub open spec fn ran_system(self, next: World, system: SystemFn) -> bool {
        &&& next.registry == self.registry
        &&& next.data == System::fresh(system).initialized().stepped(self.data)
    }

    /// `next` is this world after running the system under `id`, with
    /// result `r`.
    pub open spec fn ran_system_by_id(
        self,
        next: World,
        id: SystemId,
        r: Result<(), SystemRegistryError>,
    ) -> bool {
        &&& next.has_registry()
        &&& self.reg().ran_by_id(next.reg(), self.data, next.data, id, r)
    }

    /// `next` is this world after the change detector was marked changed.
    pub open spec fn marked_changed(self, next: World) -> bool {
        &&& next.registry == self.registry
        &&& next.data == (WorldData { change_detector: Some(self.data.change_tick), ..self.data })
    }

    /// A world with no resources and no entities, and an empty registry.
    pub fn new() -> (w: World)
        ensures
            w.data == (WorldData {
                counter: None,
                non_send_counter: None,
                change_detector: None,
                change_tick: 1,
                entities: 0,
            }),
            w.has_registry(),
            w.reg().last_id() == 0,
            w.reg().entries() == Map::<u32, (bool, System)>::empty(),
    {
        World {
            data: WorldData {
                counter: None,
                non_send_counter: None,
                change_detector: None,
                change_tick: 1,
                entities: 0,
            },
            registry: Some(SystemRegistry::new()),
        }
    }

    /// Registers a system in the world's registry, under a new identifier.
    /// The registry must be in place: it is out of the world while a
    /// one-shot run is under way.
    pub fn register_system(&mut self, system: SystemFn) -> (r: SystemId)
        requires
            old(self).has_registry(),
            old(self).reg().last_id() < u32::MAX,
        ensures
            old(self).registered(*final(self), system, r),
    {
        let mut registry = self.registry.take().unwrap();
        let id = registry.register(system);
        self.registry = Some(registry);
        id
    }

    /// Runs a fresh system with the given logic on the world once. The
    /// registry is out of the world while the system runs, so the system
    /// cannot start another one-shot run.
    pub fn run_system(&mut self, system: SystemFn)
        requires
            old(self).has_registry(),
            System::fresh(system).initialized().can_run(old(self).data),
        ensures
            old(self).ran_system(*final(self), system),
    {
        let mut registry = self.registry.take().unwrap();
        registry.run(self, system);
        self.registry = Some(registry);
    }

    /// Runs the system registered under `id`, with the state it cached.
    /// The registry is out of the world while the system runs.
    pub fn run_system_by_id(&mut self, id: SystemId) -> (r: Result<(), SystemRegistryError>)
        requires
            old(self).has_registry(),
            old(self).reg().can_run_by_id(id, old(self).data),
        ensures
            old(self).ran_system_by_id(*final(self), id, r),
    {
        let mut registry = self.registry.take().unwrap();
        let r = registry.run_by_id(self, id);
        self.registry = Some(registry);
        r
    }

    /// Whether the registry is in place.
    pub fn contains_registry(&self) -> (r: bool)
        ensures
            r == self.registry.is_some(),
    {
        self.registry.is_some()
    }

    /// The `Counter` resource, if present.
    pub fn counter(&self) -> (r: Option<Counter>)
        ensures
            r == self.data.counter,
    {
        self.data.counter
    }

    /// The non-send `Counter` resource, if present.
    pub fn non_send_counter(&self) -> (r: Option<Counter>)
        ensures
            r == self.data.non_send_counter,
    {
        self.data.non_send_counter
    }

    /// How many entities exist.
    pub fn entities_len(&self) -> (r: u32)
        ensures
            r == self.data.entities,
    {
        self.data.entities
    }

    /// Adds the `Counter` resource at zero, unless it is present.
    pub fn init_counter(&mut self)
        ensures
            final(self).registry == old(self).registry,
            final(self).data == (WorldData {
                counter: if old(self).data.counter.is_some() {
                    old(self).data.counter
                } else {
                    Some(Counter(0))
                },
                ..old(self).data
            }),
    {
        if self.data.counter.is_none() {
            self.data.counter = Some(Counter(0));
        }
    }

    /// Sets the `Counter` resource.
    pub fn insert_counter(&mut self, value: Counter)
        ensures
            final(self).registry == old(self).registry,
            final(self).data == (WorldData { counter: Some(value), ..old(self).data }),
    {
        self.data.counter = Some(value);
    }

    /// Sets the non-send `Counter` resource.
    pub fn insert_non_send_counter(&mut self, value: Counter)
        ensures
            final(self).registry == old(self).registry,
            final(self).data == (WorldData { non_send_counter: Some(value), ..old(self).data }),
    {
        self.data.non_send_counter = Some(value);
    }

    /// Adds the change-detector resource, unless it is present; a resource
    /// counts as changed at the tick it is added.
    pub fn init_change_detector(&mut self)
        ensures
            final(self).registry == old(self).registry,
            final(self).data == (WorldData {
                change_detector: if old(self).data.change_detector.is_some() {
                    old(self).data.change_detector
                } else {
                    Some(old(self).data.change_tick)
                },
                ..old(self).data
            }),
    {
        if self.data.change_detector.is_none() {
            self.data.change_detector = Some(self.data.change_tick);
        }
    }

    /// Marks the change-detector resource as changed at the current tick.
    pub fn mark_change_detector_changed(&mut self)
        requires
            old(self).data.change_detector.is_some(),
        ensures
            old(self).marked_changed(*final(self)),
    {
        self.data.change_detector = Some(self.data.change_tick);
    }
}

} // verus!
