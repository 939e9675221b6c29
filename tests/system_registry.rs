use system_registry::command::{RunSystemById, RunSystemCommand};
use system_registry::registry::{SystemRegistry, SystemRegistryError};
use system_registry::system::{
    count_to_ten, count_up, count_up_iff_changed, doubling, non_send_count_down, spawn_entity,
    Deferred, System, SystemFn,
};
use system_registry::world::{Counter, World};

#[test]
fn run_system() {
    let mut world = World::new();
    world.init_counter();
    assert_eq!(world.counter(), Some(Counter(0)));
    world.run_system(SystemFn::CountUp);
    assert_eq!(world.counter(), Some(Counter(1)));
}

#[test]
fn run_two_systems() {
    let mut world = World::new();
    world.init_counter();
    assert_eq!(world.counter(), Some(Counter(0)));
    world.run_system(SystemFn::CountUp);
    assert_eq!(world.counter(), Some(Counter(1)));
    world.run_system(SystemFn::CountUp);
    assert_eq!(world.counter(), Some(Counter(2)));
}

#[test]
fn command_processing() {
    let mut world = World::new();
    assert_eq!(world.entities_len(), 0);
    world.run_system(SystemFn::SpawnEntity);
    assert_eq!(world.entities_len(), 1);
}

#[test]
fn non_send_resources() {
    let mut world = World::new();
    world.insert_non_send_counter(Counter(10));
    assert_eq!(world.non_send_counter(), Some(Counter(10)));
    world.run_system(SystemFn::NonSendCountDown);
    assert_eq!(world.non_send_counter(), Some(Counter(9)));
}

#[test]
fn change_detection() {
    let mut world = World::new();
    world.init_change_detector();
    world.init_counter();
    assert_eq!(world.counter(), Some(Counter(0)));
    // Resources are changed when they are first added.
    let id = world.register_system(SystemFn::CountUpIffChanged);
    let _ = world.run_system_by_id(id);
    assert_eq!(world.counter(), Some(Counter(1)));
    // Nothing changed
    let _ = world.run_system_by_id(id);
    assert_eq!(world.counter(), Some(Counter(1)));
    // Making a change
    world.mark_change_detector_changed();
    let _ = world.run_system_by_id(id);
    assert_eq!(world.counter(), Some(Counter(2)));
}

#[test]
fn local_variables() {
    let mut world = World::new();
    world.insert_counter(Counter(1));
    assert_eq!(world.counter(), Some(Counter(1)));
    let id = world.register_system(SystemFn::Doubling);
    let _ = world.run_system_by_id(id);
    assert_eq!(world.counter(), Some(Counter(1)));
    let _ = world.run_system_by_id(id);
    assert_eq!(world.counter(), Some(Counter(2)));
    let _ = world.run_system_by_id(id);
    assert_eq!(world.counter(), Some(Counter(4)));
    let _ = world.run_system_by_id(id);
    assert_eq!(world.counter(), Some(Counter(8)));
}

#[test]
fn run_system_through_command() {
    let mut world = World::new();
    let command = RunSystemCommand::new(SystemFn::SpawnEntity);
    assert_eq!(world.entities_len(), 0);
    command.apply(&mut world);
    assert_eq!(world.entities_len(), 1);
}

#[test]
fn registered_system_runs_once_per_call() {
    let mut world = World::new();
    world.init_counter();
    let id = world.register_system(SystemFn::CountUp);
    assert_eq!(world.counter(), Some(Counter(0)));
    assert_eq!(world.run_system_by_id(id), Ok(()));
    assert_eq!(world.counter(), Some(Counter(1)));
    assert_eq!(world.run_system_by_id(id), Ok(()));
    assert_eq!(world.counter(), Some(Counter(2)));
}

#[test]
fn unknown_id_is_an_error_and_changes_nothing() {
    let mut other = World::new();
    let _ = other.register_system(SystemFn::CountUp);
    let foreign = other.register_system(SystemFn::CountUp);
    assert_eq!(foreign.index(), 2);

    let mut world = World::new();
    world.init_counter();
    let own = world.register_system(SystemFn::CountUp);
    assert_eq!(own.index(), 1);
    assert_eq!(
        world.run_system_by_id(foreign),
        Err(SystemRegistryError::SystemIdNotRegistered(foreign))
    );
    assert_eq!(world.counter(), Some(Counter(0)));
    assert_eq!(world.entities_len(), 0);
    assert!(world.contains_registry());
}

#[test]
fn removed_id_is_unknown() {
    let mut registry = SystemRegistry::new();
    let mut world = World::new();
    world.init_counter();
    let id = registry.register(SystemFn::CountUp);
    assert_eq!(registry.run_by_id(&mut world, id), Ok(()));
    assert_eq!(world.counter(), Some(Counter(1)));
    registry.remove(id);
    assert_eq!(
        registry.run_by_id(&mut world, id),
        Err(SystemRegistryError::SystemIdNotRegistered(id))
    );
    assert_eq!(world.counter(), Some(Counter(1)));
    // Removing again does nothing.
    registry.remove(id);
}

#[test]
fn identifiers_are_never_reused() {
    let mut registry = SystemRegistry::new();
    let a = registry.register(SystemFn::CountUp);
    let b = registry.register(SystemFn::CountUp);
    registry.remove(b);
    let c = registry.register(SystemFn::CountUp);
    assert_eq!(a.index(), 1);
    assert_eq!(b.index(), 2);
    assert_eq!(c.index(), 3);
    assert_ne!(a, b);
    assert_ne!(b, c);
}

#[test]
fn same_logic_registered_twice_has_separate_state() {
    let mut world = World::new();
    world.insert_counter(Counter(1));
    let first = world.register_system(SystemFn::Doubling);
    let second = world.register_system(SystemFn::Doubling);
    assert_ne!(first, second);
    let _ = world.run_system_by_id(first);
    assert_eq!(world.counter(), Some(Counter(1)));
    let _ = world.run_system_by_id(second);
    assert_eq!(world.counter(), Some(Counter(1)));
    let _ = world.run_system_by_id(first);
    assert_eq!(world.counter(), Some(Counter(2)));
}

#[test]
fn ad_hoc_runs_share_no_state() {
    let mut world = World::new();
    world.insert_counter(Counter(3));
    world.run_system(SystemFn::Doubling);
    assert_eq!(world.counter(), Some(Counter(3)));
    world.run_system(SystemFn::Doubling);
    assert_eq!(world.counter(), Some(Counter(3)));
}

#[test]
fn ad_hoc_change_detection_always_sees_a_change() {
    let mut world = World::new();
    world.init_change_detector();
    world.init_counter();
    world.run_system(SystemFn::CountUpIffChanged);
    world.run_system(SystemFn::CountUpIffChanged);
    assert_eq!(world.counter(), Some(Counter(2)));
}

#[test]
fn deferred_spawn_seen_by_next_call() {
    let mut world = World::new();
    world.run_system(SystemFn::SpawnEntity);
    world.run_system(SystemFn::SpawnEntity);
    assert_eq!(world.entities_len(), 2);
    let id = world.register_system(SystemFn::SpawnEntity);
    let _ = world.run_system_by_id(id);
    assert_eq!(world.entities_len(), 3);
}

#[test]
fn run_by_id_command() {
    let mut world = World::new();
    world.init_counter();
    let id = world.register_system(SystemFn::CountUp);
    let command = RunSystemById::new(id);
    assert_eq!(command.apply(&mut world), Ok(()));
    assert_eq!(world.counter(), Some(Counter(1)));
    let mut fresh = World::new();
    assert_eq!(
        RunSystemById::new(id).apply(&mut fresh),
        Err(SystemRegistryError::SystemIdNotRegistered(id))
    );
}

#[test]
fn count_to_ten_from_nine_stops() {
    let mut world = World::new();
    world.insert_counter(Counter(9));
    world.run_system(SystemFn::CountToTen);
    assert_eq!(world.counter(), Some(Counter(10)));
}

#[test]
fn system_bodies() {
    let mut c = Counter(4);
    count_up(&mut c);
    assert_eq!(c, Counter(5));
    non_send_count_down(&mut c);
    assert_eq!(c, Counter(4));
    count_up_iff_changed(&mut c, false);
    assert_eq!(c, Counter(4));
    count_up_iff_changed(&mut c, true);
    assert_eq!(c, Counter(5));
    let mut kept = Counter(5);
    doubling(&mut kept, &mut c);
    assert_eq!(c, Counter(10));
    assert_eq!(kept, Counter(10));
    let mut queue: Vec<Deferred> = Vec::new();
    spawn_entity(&mut queue);
    assert_eq!(queue, vec![Deferred::SpawnEmpty]);
    let mut c = Counter(3);
    count_to_ten(&mut c, &mut queue);
    assert_eq!(c, Counter(4));
    assert_eq!(
        queue,
        vec![Deferred::SpawnEmpty, Deferred::RunSystem(SystemFn::CountToTen)]
    );
}

#[test]
fn system_lifecycle() {
    let mut world = World::new();
    world.insert_counter(Counter(2));
    let mut s = System::into_system(SystemFn::Doubling);
    assert_eq!(s.local, 0);
    s.initialize(&world.data);
    let queue = s.run(&mut world.data);
    assert!(queue.is_empty());
    assert_eq!(s.local, 2);
    assert_eq!(s.last_run, 1);
    assert_eq!(world.data.change_tick, 2);
    s.initialize(&world.data);
    assert_eq!(s.local, 0);
    assert_eq!(s.last_run, 0);
}
