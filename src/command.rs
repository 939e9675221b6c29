use vstd::prelude::*;

use crate::registry::{SystemId, SystemRegistryError};
use crate::system::{System, SystemFn};
use crate::world::World;

verus! {

/// A queued request to run a fresh system once, ad hoc.
#[derive(Clone, Copy, Debug)]
pub struct RunSystemCommand {
    system: SystemFn,
}

impl RunSystemCommand {
    /// The logic the command runs.
    pub closed spec fn system(self) -> SystemFn {
        self.system
    }

    /// A command that runs `system` once when applied.
    #[must_use]
    pub fn new(system: SystemFn) -> (r: RunSystemCommand)
        ensures
            r.system() == system,
    {
        RunSystemCommand { system }
    }

    /// Runs the command's system once on the world, as
    /// [`World::run_system`] does.
    pub fn apply(self, world: &mut World)
        requires
            old(world).has_registry(),
            System::fresh(self.system()).initialized().can_run(old(world).data),
        ensures
            old(world).ran_system(*final(world), self.system()),
    {
        world.run_system(self.system);
    }
}

/// A queued request to run the system registered under an identifier.
#[derive(Clone, Copy, Debug)]
pub struct RunSystemById {
    system_id: SystemId,
}

impl RunSystemById {
    /// The identifier of the system the command runs.
    pub closed spec fn system_id(self) -> SystemId {
        self.system_id
    }

    /// A command that runs the system under `system_id` when applied.
    pub fn new(system_id: SystemId) -> (r: RunSystemById)
        ensures
            r.system_id() == system_id,
    {
        RunSystemById { system_id }
    }

    /// Runs the system under the command's identifier, as
    /// [`World::run_system_by_id`] does. An unknown identifier is handed
    /// back to the caller as an error rather than ending the program.
    pub fn apply(self, world: &mut World) -> (r: Result<(), SystemRegistryError>)
        requires
            old(world).has_registry(),
            old(world).reg().can_run_by_id(self.system_id(), old(world).data),
        ensures
            old(world).ran_system_by_id(*final(world), self.system_id(), r),
    {
        world.run_system_by_id(self.system_id)
    }
}

} // verus!
