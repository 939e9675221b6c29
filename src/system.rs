use vstd::prelude::*;

use crate::world::{Counter, WorldData};

verus! {

/// The logic a system carries out on the world each time it runs.
#[derive(Clone, Copy, Debug, PartialEq, Eq, Structural)]
pub enum SystemFn {
    /// Adds one to the `Counter` resource.
    CountUp,
    /// Queues the creation of one empty entity.
    SpawnEntity,
    /// Takes one from the non-send `Counter` resource.
    NonSendCountDown,
    /// Adds one to the `Counter` resource when the change detector was
    /// changed since this system last ran.
    CountUpIffChanged,
    /// Adds the value it kept from its previous run to the `Counter`
    /// resource, then keeps the new value.
    Doubling,
    /// Adds one to the `Counter` resource and, while it is below ten,
    /// queues a one-shot run of itself.
    CountToTen,
}

/// A change queued by a system while it runs, applied right after it.
#[derive(Clone, Copy, Debug, PartialEq, Eq, Structural)]
pub enum Deferred {
    /// Create one empty entity.
    SpawnEmpty,
    /// Run the given logic as a one-shot system.
    RunSystem(SystemFn),
}

/// An executable system: its logic together with the state it caches
/// between runs (its local value and the tick of its last run).
#[derive(Clone, Copy, Debug, PartialEq, Eq, Structural)]
pub struct System {
    pub logic: SystemFn,
    pub local: u8,
    pub last_run: u64,
}

/// True when the change detector was changed after the tick `last_run`.
pub open spec fn changed_after(d: WorldData, last_run: u64) -> bool {
    d.change_detector.is_some() && d.change_detector.unwrap() > last_run
}

/// The value of the `Counter` resource (zero when it is absent).
pub open spec fn counter_value(d: WorldData) -> int {
    if d.counter.is_some() { d.counter.unwrap().0 as int } else { 0 }
}

/// The world data after applying the queued changes `q` in order.
pub open spec fn applied(d: WorldData, q: Seq<Deferred>) -> WorldData
    decreases q.len(),
{
    if q.len() == 0 {
        d
    } else {
        let before = applied(d, q.drop_last());
        match q.last() {
            Deferred::SpawnEmpty => WorldData { entities: (before.entities + 1) as u32, ..before },
            // Never applied: a run that queues it is refused beforehand.
            Deferred::RunSystem(_) => before,
        }
    }
}

/// True when `q` holds no request for a nested one-shot run.
pub open spec fn no_nested_run(q: Seq<Deferred>) -> bool {
    forall|i: int| 0 <= i < q.len() ==> q[i] == Deferred::SpawnEmpty
}

impl System {
    /// The system a piece of logic becomes: nothing cached yet.
    pub open spec fn fresh(logic: SystemFn) -> System {
        System { logic, local: 0, last_run: 0 }
    }

    /// The system after its one-time initialization: its local value set
    /// to the default and every resource counted as changed.
    pub open spec fn initialized(self) -> System {
        System { local: 0, last_run: 0, ..self }
    }

    /// What the system's body needs of the world to run to its end.
    pub open spec fn can_run(self, d: WorldData) -> bool {
        &&& d.change_tick < u64::MAX
        &&& no_nested_run(self.queued(d))
        &&& match self.logic {
            SystemFn::CountUp => d.counter.is_some() && counter_value(d) < 255,
            SystemFn::SpawnEntity => d.entities < u32::MAX,
            SystemFn::NonSendCountDown => d.non_send_counter.is_some()
                && d.non_send_counter.unwrap().0 > 0,
            SystemFn::CountUpIffChanged => d.counter.is_some() && (changed_after(
                d,
                self.last_run,
            ) ==> counter_value(d) < 255),
            SystemFn::Doubling => d.counter.is_some() && counter_value(d) + self.local <= 255,
            SystemFn::CountToTen => d.counter.is_some() && counter_value(d) < 255,
        }
    }

    /// The changes the system queues when it runs on `d`.
    pub open spec fn queued(self, d: WorldData) -> Seq<Deferred> {
        match self.logic {
            SystemFn::SpawnEntity => seq![Deferred::SpawnEmpty],
            SystemFn::CountToTen => if counter_value(d) + 1 < 10 {
                seq![Deferred::RunSystem(SystemFn::CountToTen)]
            } else {
                seq![]
            },
            _ => seq![],
        }
    }

    /// The system after one run on `d`: its last run is the current tick,
    /// and a doubling system keeps the counter's new value.
    pub open spec fn ran(self, d: WorldData) -> System {
        let local = match self.logic {
            SystemFn::Doubling => (counter_value(d) + self.local) as u8,
            _ => self.local,
        };
        System { local, last_run: d.change_tick, ..self }
    }

    /// The world data after one run of the body on `d`, before the queued
    /// changes are applied.
    pub open spec fn ran_data(self, d: WorldData) -> WorldData {
        let t = WorldData { change_tick: (d.change_tick + 1) as u64, ..d };
        let c = counter_value(d);
        match self.logic {
            SystemFn::CountUp => WorldData { counter: Some(Counter((c + 1) as u8)), ..t },
            SystemFn::SpawnEntity => t,
            SystemFn::NonSendCountDown => WorldData {
                non_send_counter: Some(Counter((d.non_send_counter.unwrap().0 - 1) as u8)),
                ..t
            },
            SystemFn::CountUpIffChanged => if changed_after(d, self.last_run) {
                WorldData { counter: Some(Counter((c + 1) as u8)), ..t }
            } else {
                t
            },
            SystemFn::Doubling => WorldData {
                counter: Some(Counter((c + self.local) as u8)),
                ..t
            },
            SystemFn::CountToTen => WorldData { counter: Some(Counter((c + 1) as u8)), ..t },
        }
    }

    /// The world data after one run followed by its queued changes.
    pub open spec fn stepped(self, d: WorldData) -> WorldData {
        applied(self.ran_data(d), self.queued(d))
    }

    /// Wraps a piece of logic into an executable system.
    pub fn into_system(logic: SystemFn) -> (r: System)
        ensures
            r == System::fresh(logic),
    {
        System { logic, local: 0, last_run: 0 }
    }

    /// Sets the system up against the world: the default local value, and
    /// no run seen yet, so that every resource counts as changed.
    pub fn initialize(&mut self, _data: &WorldData)
        ensures
            *final(self) == old(self).initialized(),
    {
        self.local = 0;
        self.last_run = 0;
    }

    /// Runs the body once and returns what it queued.
    pub fn run(&mut self, data: &mut WorldData) -> (queue: Vec<Deferred>)
        requires
            old(self).can_run(*old(data)),
        ensures
            *final(self) == old(self).ran(*old(data)),
            *final(data) == old(self).ran_data(*old(data)),
            queue@ == old(self).queued(*old(data)),
            no_nested_run(queue@),
            final(data).entities + queue@.len() <= u32::MAX,
    {
        let this_run = data.change_tick;
        data.change_tick = this_run + 1;
        let mut queue: Vec<Deferred> = Vec::new();
        match self.logic {
            SystemFn::CountUp => {
                let mut c = data.counter.unwrap();
                count_up(&mut c);
                data.counter = Some(c);
            },
            SystemFn::SpawnEntity => {
                spawn_entity(&mut queue);
            },
            SystemFn::NonSendCountDown => {
                let mut c = data.non_send_counter.unwrap();
                non_send_count_down(&mut c);
                data.non_send_counter = Some(c);
            },
            SystemFn::CountUpIffChanged => {
                let changed = match data.change_detector {
                    Some(t) => t > self.last_run,
                    None => false,
                };
                let mut c = data.counter.unwrap();
                count_up_iff_changed(&mut c, changed);
                data.counter = Some(c);
            },
            SystemFn::Doubling => {
                let mut c = data.counter.unwrap();
                let mut kept = Counter(self.local);
                doubling(&mut kept, &mut c);
                self.local = kept.0;
                data.counter = Some(c);
            },
            SystemFn::CountToTen => {
                let mut c = data.counter.unwrap();
                count_to_ten(&mut c, &mut queue);
                data.counter = Some(c);
                assert(queue@.len() == 0) by {
                    if queue@.len() > 0 {
                        assert(queue@[0] == Deferred::RunSystem(SystemFn::CountToTen));
                    }
                }
            },
        }
        self.last_run = this_run;
        queue
    }
}

/// Applies the queued changes to the world, in the order they were queued.
pub fn apply_deferred(data: &mut WorldData, queue: &Vec<Deferred>)
    requires
        no_nested_run(queue@),
        old(data).entities + queue@.len() <= u32::MAX,
    ensures
        *final(data) == applied(*old(data), queue@),
{
    let ghost d0 = *data;
    let mut i: usize = 0;
    while i < queue.len()
        invariant
            i <= queue@.len(),
            no_nested_run(queue@),
            d0.entities + queue@.len() <= u32::MAX,
            *data == applied(d0, queue@.take(i as int)),
            data.entities == d0.entities + i,
        decreases queue@.len() - i,
    {
        proof {
            assert(queue@.take(i as int + 1).drop_last() =~= queue@.take(i as int));
        }
        match queue[i] {
            Deferred::SpawnEmpty => {
                data.entities = data.entities + 1;
            },
            Deferred::RunSystem(_) => {
                // Excluded by the requirement that nothing nested is queued.
            },
        }
        i = i + 1;
    }
    proof {
        assert(queue@.take(queue@.len() as int) =~= queue@);
    }
}

/// Adds one to the counter.
pub fn count_up(counter: &mut Counter)
    requires
        old(counter).0 < 255,
    ensures
        final(counter).0 == old(counter).0 + 1,
{
    counter.0 = counter.0 + 1;
}

/// Queues the creation of one empty entity.
pub fn spawn_entity(commands: &mut Vec<Deferred>)
    ensures
        final(commands)@ == old(commands)@.push(Deferred::SpawnEmpty),
{
    commands.push(Deferred::SpawnEmpty);
}

/// Takes one from the counter.
pub fn non_send_count_down(counter: &mut Counter)
    requires
        old(counter).0 > 0,
    ensures
        final(counter).0 == old(counter).0 - 1,
{
    counter.0 = counter.0 - 1;
}

/// Adds one to the counter when `changed` holds.
pub fn count_up_iff_changed(counter: &mut Counter, changed: bool)
    requires
        changed ==> old(counter).0 < 255,
    ensures
        final(counter).0 == if changed { old(counter).0 + 1 } else { old(counter).0 as int },
{
    if changed {
        counter.0 = counter.0 + 1;
    }
}

/// Adds the kept value to the counter, then keeps the counter's new value.
pub fn doubling(last_counter: &mut Counter, counter: &mut Counter)
    requires
        old(counter).0 + old(last_counter).0 <= 255,
    ensures
        final(counter).0 == old(counter).0 + old(last_counter).0,
        final(last_counter).0 == final(counter).0,
{
    counter.0 = counter.0 + last_counter.0;
    last_counter.0 = counter.0;
}

/// Adds one to the counter and, while it is below ten, queues a one-shot
/// run of the same logic.
pub fn count_to_ten(counter: &mut Counter, commands: &mut Vec<Deferred>)
    requires
        old(counter).0 < 255,
    ensures
        final(counter).0 == old(counter).0 + 1,
        final(commands)@ == if final(counter).0 < 10 {
            old(commands)@.push(Deferred::RunSystem(SystemFn::CountToTen))
        } else {
            old(commands)@
        },
{
    counter.0 = counter.0 + 1;
    if counter.0 < 10 {
        commands.push(Deferred::RunSystem(SystemFn::CountToTen));
    }
}

} // verus!
