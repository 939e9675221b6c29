use vstd::prelude::*;

use crate::registry::{SystemId, SystemRegistry, SystemRegistryError};
use crate::system::{Deferred, System, SystemFn};
use crate::world::{Counter, World, WorldData};

verus! {

/// A system registered and then run twice by its identifier runs on each
/// call: a counter that starts at zero reads one, then two. It is
/// initialized on the first run and stays initialized.
pub proof fn lemma_registered_system_runs_each_call(
    w0: World,
    w1: World,
    w2: World,
    w3: World,
    id: SystemId,
    r1: Result<(), SystemRegistryError>,
    r2: Result<(), SystemRegistryError>,
)
    requires
        w0.has_registry(),
        w0.data.counter == Some(Counter(0)),
        w0.registered(w1, SystemFn::CountUp, id),
        w1.ran_system_by_id(w2, id, r1),
        w2.ran_system_by_id(w3, id, r2),
    ensures
        r1 == Ok::<(), SystemRegistryError>(()),
        r2 == Ok::<(), SystemRegistryError>(()),
        w2.data.counter == Some(Counter(1)),
        w3.data.counter == Some(Counter(2)),
        w2.reg().entries()[id.raw()].0,
        w3.reg().entries()[id.raw()].0,
{
    assert(w1.reg().entries().contains_key(id.raw()));
    assert(w2.reg().entries().contains_key(id.raw()));
}

/// Running an identifier that the registry never handed out fails with
/// the unknown-identifier error and changes nothing.
pub proof fn lemma_unissued_id_is_unknown(
    w: World,
    w2: World,
    id: SystemId,
    r: Result<(), SystemRegistryError>,
)
    requires
        w.has_registry(),
        id.raw() > w.reg().last_id(),
        w.ran_system_by_id(w2, id, r),
    ensures
        r == Err::<(), SystemRegistryError>(SystemRegistryError::SystemIdNotRegistered(id)),
        w2.data == w.data,
        w2.reg().last_id() == w.reg().last_id(),
        w2.reg().entries() == w.reg().entries(),
{
}

/// After an identifier is removed, running it fails with the
/// unknown-identifier error and changes nothing.
pub proof fn lemma_removed_id_is_unknown(
    r0: SystemRegistry,
    r1: SystemRegistry,
    r2: SystemRegistry,
    d: WorldData,
    d2: WorldData,
    id: SystemId,
    r: Result<(), SystemRegistryError>,
)
    requires
        r0.removed(r1, id),
        r1.ran_by_id(r2, d, d2, id, r),
    ensures
        r == Err::<(), SystemRegistryError>(SystemRegistryError::SystemIdNotRegistered(id)),
        d2 == d,
        r2.entries() == r1.entries(),
{
}

/// A system gated on change detection, run by its identifier, then run
/// again, then run after the detector was marked changed, adds one, then
/// nothing, then one: the detector counts as changed when first added, is
/// unchanged since the system's last run, and changed again when marked.
pub proof fn lemma_change_detection_by_id(
    w0: World,
    w1: World,
    w2: World,
    w3: World,
    w4: World,
    w5: World,
    id: SystemId,
    c: u8,
    t: u64,
    r1: Result<(), SystemRegistryError>,
    r2: Result<(), SystemRegistryError>,
    r3: Result<(), SystemRegistryError>,
)
    requires
        w0.has_registry(),
        w0.data.counter == Some(Counter(c)),
        c <= 253,
        w0.data.change_detector == Some(t),
        0 < t <= w0.data.change_tick,
        w0.data.change_tick < u64::MAX - 3,
        w0.registered(w1, SystemFn::CountUpIffChanged, id),
        w1.ran_system_by_id(w2, id, r1),
        w2.ran_system_by_id(w3, id, r2),
        w3.marked_changed(w4),
        w4.ran_system_by_id(w5, id, r3),
    ensures
        w2.data.counter == Some(Counter((c + 1) as u8)),
        w3.data.counter == Some(Counter((c + 1) as u8)),
        w5.data.counter == Some(Counter((c + 2) as u8)),
{
    assert(w1.reg().entries().contains_key(id.raw()));
    assert(w2.reg().entries().contains_key(id.raw()));
    assert(w4.reg().entries() == w3.reg().entries());
    assert(w4.reg().entries().contains_key(id.raw()));
}

/// A system that keeps a local value, run four times by its identifier on
/// a counter that starts at one, leaves the counter at 1, 2, 4 and 8: its
/// local value persists from one run to the next.
pub proof fn lemma_local_state_persists_by_id(
    w0: World,
    w1: World,
    w2: World,
    w3: World,
    w4: World,
    w5: World,
    id: SystemId,
    r1: Result<(), SystemRegistryError>,
    r2: Result<(), SystemRegistryError>,
    r3: Result<(), SystemRegistryError>,
    r4: Result<(), SystemRegistryError>,
)
    requires
        w0.has_registry(),
        w0.data.counter == Some(Counter(1)),
        w0.registered(w1, SystemFn::Doubling, id),
        w1.ran_system_by_id(w2, id, r1),
        w2.ran_system_by_id(w3, id, r2),
        w3.ran_system_by_id(w4, id, r3),
        w4.ran_system_by_id(w5, id, r4),
    ensures
        w2.data.counter == Some(Counter(1)),
        w3.data.counter == Some(Counter(2)),
        w4.data.counter == Some(Counter(4)),
        w5.data.counter == Some(Counter(8)),
{
    assert(w1.reg().entries().contains_key(id.raw()));
    assert(w2.reg().entries().contains_key(id.raw()));
    assert(w3.reg().entries().contains_key(id.raw()));
    assert(w4.reg().entries().contains_key(id.raw()));
}

/// Two ad hoc runs of the same logic share no cached state: each starts
/// from a fresh system, so a system that keeps a local value adds nothing
/// to the counter on either run.
pub proof fn lemma_ad_hoc_runs_share_no_state(w0: World, w1: World, w2: World, c: u8)
    requires
        w0.data.counter == Some(Counter(c)),
        w0.ran_system(w1, SystemFn::Doubling),
        w1.ran_system(w2, SystemFn::Doubling),
    ensures
        w1.data.counter == Some(Counter(c)),
        w2.data.counter == Some(Counter(c)),
{
}

/// A system whose run would request a one-shot run while one is under
/// way is refused: it does not meet what a run requires.
pub proof fn lemma_nested_one_shot_refused(s: System, d: WorldData, i: int)
    requires
        0 <= i < s.queued(d).len(),
        s.queued(d)[i] != Deferred::SpawnEmpty,
    ensures
        !s.can_run(d),
{
}

/// A one-shot run of the count-to-ten logic on a counter below nine is
/// refused, since its first run would request another one-shot run.
pub proof fn lemma_recursive_one_shot_refused(d: WorldData)
    requires
        d.counter.is_some(),
        d.counter.unwrap().0 < 9,
    ensures
        !System::fresh(SystemFn::CountToTen).initialized().can_run(d),
{
    let f = System::fresh(SystemFn::CountToTen).initialized();
    lemma_nested_one_shot_refused(f, d, 0);
}

/// A change queued inside a one-shot system is applied before the call
/// returns: after an ad hoc run of the spawning logic there is one more
/// entity.
pub proof fn lemma_deferred_applied_on_return(w0: World, w1: World)
    requires
        w0.data.entities < u32::MAX,
        w0.ran_system(w1, SystemFn::SpawnEntity),
    ensures
        w1.data.entities == w0.data.entities + 1,
{
    let s = System::fresh(SystemFn::SpawnEntity).initialized();
    let q = s.queued(w0.data);
    assert(q.drop_last() =~= Seq::<Deferred>::empty());
    assert(crate::system::applied(s.ran_data(w0.data), q.drop_last()) == s.ran_data(w0.data));
}

} // verus!
