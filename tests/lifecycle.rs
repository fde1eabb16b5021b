use foxy::lifecycle::{Event, LifecycleBuilder, PHASES};

#[test]
fn phases_in_running_order() {
    let all = [Event::PreStart, Event::Start, Event::Tick, Event::Update, Event::PostUpdate, Event::Stop];
    for (i, e) in all.iter().enumerate() {
        assert_eq!(e.index(), i);
    }
    assert_eq!(PHASES, 6);
}

#[test]
fn every_phase_runs_on_an_empty_world() {
    let mut lifecycle = LifecycleBuilder::new().build();
    let mut world = legion::World::default();
    let mut resources = legion::Resources::default();
    for e in [Event::PreStart, Event::Start, Event::Tick, Event::Update, Event::PostUpdate, Event::Stop] {
        lifecycle.schedule(e).execute(&mut world, &mut resources);
    }
    assert!(world.is_empty());
}

#[test]
fn builder_is_reachable_per_phase() {
    let mut b = LifecycleBuilder::new();
    b.builder(Event::Tick).flush();
    let mut lifecycle = b.build();
    let mut world = legion::World::default();
    let mut resources = legion::Resources::default();
    lifecycle.schedule(Event::Tick).execute(&mut world, &mut resources);
}

#[test]
fn systems_added_to_a_phase_land_in_its_schedule() {
    let mut b = LifecycleBuilder::new();
    b.builder(Event::Update).add_thread_local_fn(|_world, resources| {
        *resources.get_mut::<u32>().unwrap() += 1;
    });
    let mut lifecycle = b.build();
    let mut world = legion::World::default();
    let mut resources = legion::Resources::default();
    resources.insert(0u32);
    lifecycle.schedule(Event::Tick).execute(&mut world, &mut resources);
    assert_eq!(*resources.get::<u32>().unwrap(), 0);
    lifecycle.schedule(Event::Update).execute(&mut world, &mut resources);
    lifecycle.schedule(Event::Update).execute(&mut world, &mut resources);
    assert_eq!(*resources.get::<u32>().unwrap(), 2);
}
