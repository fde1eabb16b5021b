use vstd::prelude::*;

verus! {

#[verifier::external_type_specification]
#[verifier::external_body]
pub struct ExSchedule(legion::Schedule);

#[verifier::external_type_specification]
#[verifier::external_body]
pub struct ExScheduleBuilder(legion::systems::Builder);

/// Relies on legion's Schedule::builder: a builder with no systems yet.
#[verifier::external_body]
fn new_schedule_builder() -> legion::systems::Builder {
    legion::Schedule::builder()
}

/// The schedule that a system builder, as it stands, builds.
pub uninterp spec fn schedule_of(builder: legion::systems::Builder) -> legion::Schedule;

/// Relies on legion's Builder::build: it flushes the builder and moves its
/// steps into the schedule, so the schedule depends on the builder alone.
#[verifier::external_body]
fn build_schedule(builder: &mut legion::systems::Builder) -> (r: legion::Schedule)
    ensures
        r == schedule_of(*old(builder)),
{
    builder.build()
}

/// The phases of the application's life, in the order they run.
#[derive(Debug, Clone, Copy, PartialEq, Eq, Hash, Structural)]
pub enum Event {
    PreStart,
    Start,
    Tick,
    Update,
    PostUpdate,
    Stop,
}

/// Number of phases.
pub const PHASES: usize = 6;

pub open spec fn phase_index(event: Event) -> nat {
    match event {
        Event::PreStart => 0,
        Event::Start => 1,
        Event::Tick => 2,
        Event::Update => 3,
        Event::PostUpdate => 4,
        Event::Stop => 5,
    }
}

impl Event {
    /// The phase's position in running order.
    pub fn index(&self) -> (r: usize)
        ensures
            r == phase_index(*self),
            r < PHASES,
    {
        match self {
            Event::PreStart => 0,
            Event::Start => 1,
            Event::Tick => 2,
            Event::Update => 3,
            Event::PostUpdate => 4,
            Event::Stop => 5,
        }
    }
}

/// Collects the systems of each phase.
pub struct LifecycleBuilder {
    builders: Vec<legion::systems::Builder>,
}

impl LifecycleBuilder {
    pub closed spec fn wf(&self) -> bool {
        self.builders@.len() == PHASES
    }

    /// The system builders, one per phase in running order.
    pub closed spec fn builders(&self) -> Seq<legion::systems::Builder> {
        self.builders@
    }

    /// One empty system builder per phase.
    pub fn new() -> (r: LifecycleBuilder)
        ensures
            r.wf(),
    {
        let mut builders: Vec<legion::systems::Builder> = Vec::new();
        let mut i: usize = 0;
        while i < PHASES
            invariant
                builders@.len() == i,
                i <= PHASES,
            decreases PHASES - i,
        {
            builders.push(new_schedule_builder());
            i = i + 1;
        }
        LifecycleBuilder { builders }
    }

    /// The builder that collects the systems of `event`'s phase.
    pub fn builder(&mut self, event: Event) -> (r: &mut legion::systems::Builder)
        requires
            old(self).wf(),
        ensures
            *r == old(self).builders()[phase_index(event) as int],
            final(self).builders() == old(self).builders().update(
                phase_index(event) as int,
                *final(r),
            ),
            final(self).wf(),
    {
        let i = event.index();
        &mut self.builders[i]
    }

    /// One schedule per phase, each made of the systems added to that phase.
    pub fn build(self) -> (r: Lifecycle)
        requires
            self.wf(),
        ensures
            r.wf(),
            forall|i: int|
                0 <= i < PHASES ==> #[trigger] r.schedules()[i] == schedule_of(self.builders()[i]),
    {
        let mut builders = self.builders;
        let mut schedules: Vec<legion::Schedule> = Vec::new();
        let mut i: usize = 0;
        while i < PHASES
            invariant
                builders@.len() == PHASES,
                schedules@.len() == i,
                i <= PHASES,
                forall|k: int| i <= k < PHASES ==> builders@[k] == self.builders@[k],
                forall|k: int| 0 <= k < i ==> schedules@[k] == schedule_of(self.builders@[k]),
            decreases PHASES - i,
        {
            let schedule = build_schedule(&mut builders[i]);
            schedules.push(schedule);
            i = i + 1;
        }
        Lifecycle { schedules }
    }
}

/// The schedules of the phases: one per phase, each made of the systems added
/// to that phase.
///
/// Running a schedule executes the application's systems, whose declared reads
/// and writes decide whether the given resources suffice; that is left to the
/// caller, who runs the schedule that `schedule` hands out.
pub struct Lifecycle {
    schedules: Vec<legion::Schedule>,
}

impl Lifecycle {
    pub closed spec fn wf(&self) -> bool {
        self.schedules@.len() == PHASES
    }

    /// The schedules, one per phase in running order.
    pub closed spec fn schedules(&self) -> Seq<legion::Schedule> {
        self.schedules@
    }

    /// The schedule of `event`'s phase; the other phases' schedules are untouched.
    pub fn schedule(&mut self, event: Event) -> (r: &mut legion::Schedule)
        requires
            old(self).wf(),
        ensures
            *r == old(self).schedules()[phase_index(event) as int],
            final(self).schedules() == old(self).schedules().update(
                phase_index(event) as int,
                *final(r),
            ),
            final(self).wf(),
    {
        let i = event.index();
        &mut self.schedules[i]
    }
}

} // verus!
