use vstd::prelude::*;

verus! {

/// Nanoseconds in one second: every duration of the clock is counted in nanoseconds.
pub const NANOS_PER_SEC: u64 = 1_000_000_000;

/// The tick period, in nanoseconds, of a clock running `rate` ticks per second.
pub open spec fn period_of(rate: nat) -> nat {
    NANOS_PER_SEC as nat / rate
}

/// What a `Time` stands for.
pub struct TimeView {
    /// Whole ticks per second (rounded down when made from a period).
    pub tick_rate: nat,
    /// Length of one tick, in nanoseconds.
    pub tick_time: nat,
    /// Time owed to the simulation.
    pub lag: nat,
    /// Ticks consumed since the last frame update.
    pub step_count: nat,
    /// Most ticks allowed between two frame updates.
    pub bail_threshold: nat,
    /// Latest clock reading seen by `update`.
    pub previous_frame: nat,
    /// Time elapsed between the last two frame updates.
    pub delta: nat,
    /// Latest clock reading seen by `tick`.
    pub previous_tick: nat,
    /// Time elapsed between the last two ticks.
    pub tick_delta: nat,
}

impl TimeView {
    pub open spec fn wf(self) -> bool {
        &&& self.tick_rate <= NANOS_PER_SEC
        &&& 0 < self.tick_time <= u64::MAX
        &&& self.step_count <= self.bail_threshold
        &&& self.lag <= self.previous_frame
        &&& self.previous_frame <= u64::MAX
        &&& self.previous_tick <= u64::MAX
        &&& self.bail_threshold <= u32::MAX
    }

    /// A tick is due while a whole period is owed and the bail threshold has not been met.
    pub open spec fn should_tick(self) -> bool {
        self.lag >= self.tick_time && self.step_count < self.bail_threshold
    }

    /// The frame has run as many ticks as it may.
    pub open spec fn falling_behind(self) -> bool {
        self.step_count >= self.bail_threshold
    }

    /// Elapsed time from `from` to `to`; a reading earlier than `from` counts as none.
    pub open spec fn elapsed(from: nat, to: nat) -> nat {
        if to >= from { (to - from) as nat } else { 0 }
    }

    pub open spec fn later(a: nat, b: nat) -> nat {
        if b >= a { b } else { a }
    }

    /// The clock after a frame update at reading `now`.
    pub open spec fn updated(self, now: nat) -> TimeView {
        TimeView {
            delta: Self::elapsed(self.previous_frame, now),
            previous_frame: Self::later(self.previous_frame, now),
            lag: self.lag + Self::elapsed(self.previous_frame, now),
            step_count: 0,
            ..self
        }
    }

    /// The clock after consuming one tick at reading `now`.
    pub open spec fn ticked(self, now: nat) -> TimeView {
        TimeView {
            lag: (self.lag - self.tick_time) as nat,
            step_count: self.step_count + 1,
            tick_delta: Self::elapsed(self.previous_tick, now),
            previous_tick: Self::later(self.previous_tick, now),
            ..self
        }
    }

    /// The clock after one tick at each reading of `nows`, in order.
    pub open spec fn after_ticks(self, nows: Seq<nat>) -> TimeView
        decreases nows.len(),
    {
        if nows.len() == 0 {
            self
        } else {
            self.after_ticks(nows.drop_last()).ticked(nows.last())
        }
    }

    /// Each tick of the run at `nows` was due when it was taken.
    pub open spec fn all_ticks_due(self, nows: Seq<nat>) -> bool {
        forall|i: int| 0 <= i < nows.len() ==> #[trigger] self.after_ticks(nows.take(i)).should_tick()
    }

    /// How many ticks the frame runs from here: the whole periods owed, cut at the bail threshold.
    pub open spec fn ticks_due(self) -> nat {
        let owed = self.lag / self.tick_time;
        let room = (self.bail_threshold - self.step_count) as nat;
        if owed <= room { owed } else { room }
    }
}

/// Fixed-tick clock: turns measured frame time into a whole number of simulation ticks.
///
/// Clock readings are nanoseconds on a monotonic clock (for example, since the
/// program started).
pub struct Time {
    tick_rate: u32,
    tick_time: u64,
    lag_time: u64,
    step_count: u32,
    bail_threshold: u32,
    previous_frame: u64,
    delta_time: u64,
    tick_previous_frame: u64,
    tick_delta_time: u64,
}

impl View for Time {
    type V = TimeView;

    closed spec fn view(&self) -> TimeView {
        TimeView {
            tick_rate: self.tick_rate as nat,
            tick_time: self.tick_time as nat,
            lag: self.lag_time as nat,
            step_count: self.step_count as nat,
            bail_threshold: self.bail_threshold as nat,
            previous_frame: self.previous_frame as nat,
            delta: self.delta_time as nat,
            previous_tick: self.tick_previous_frame as nat,
            tick_delta: self.tick_delta_time as nat,
        }
    }
}

fn elapsed(from: u64, to: u64) -> (r: u64)
    ensures
        r == TimeView::elapsed(from as nat, to as nat),
{
    if to >= from {
        to - from
    } else {
        0
    }
}

impl Time {
    pub open spec fn wf(&self) -> bool {
        self@.wf()
    }

    /// A clock of `tick_rate` ticks per second that runs at most `bail_threshold`
    /// ticks per frame, started at reading 0.
    ///
    /// A rate of zero, or one whose period would be shorter than a nanosecond, is rejected.
    pub fn new(tick_rate: u32, bail_threshold: u32) -> (r: Option<Time>)
        ensures
            r is Some <==> 0 < tick_rate <= NANOS_PER_SEC,
            r matches Some(t) ==> {
                &&& t.wf()
                &&& t@.tick_rate == tick_rate
                &&& t@.tick_time == period_of(tick_rate as nat)
                &&& t@.bail_threshold == bail_threshold
                &&& t@.lag == 0
                &&& t@.step_count == 0
                &&& t@.previous_frame == 0
                &&& t@.delta == 0
                &&& t@.previous_tick == 0
                &&& t@.tick_delta == 0
            },
    {
        if tick_rate == 0 || tick_rate as u64 > NANOS_PER_SEC {
            return None;
        }
        let tick_time = NANOS_PER_SEC / tick_rate as u64;
        proof {
            let r = tick_rate as int;
            assert(1_000_000_000int / r >= 1) by (nonlinear_arith)
                requires
                    0 < r <= 1_000_000_000int,
            ;
        }
        Some(Time {
            tick_rate,
            tick_time,
            lag_time: 0,
            step_count: 0,
            bail_threshold,
            previous_frame: 0,
            delta_time: 0,
            tick_previous_frame: 0,
            tick_delta_time: 0,
        })
    }

    /// A clock whose tick lasts `tick_time` nanoseconds, for rates that are not a
    /// whole number of ticks per second (0.5 or 59.94 ticks per second), that
    /// runs at most `bail_threshold` ticks per frame, started at reading 0. Its
    /// `tick_rate` is the whole ticks per second, rounded down. A zero period is rejected.
    pub fn from_period(tick_time: u64, bail_threshold: u32) -> (r: Option<Time>)
        ensures
            r is Some <==> tick_time > 0,
            r matches Some(t) ==> {
                &&& t.wf()
                &&& t@.tick_rate == NANOS_PER_SEC as nat / tick_time as nat
                &&& t@.tick_time == tick_time
                &&& t@.bail_threshold == bail_threshold
                &&& t@.lag == 0
                &&& t@.step_count == 0
                &&& t@.previous_frame == 0
                &&& t@.delta == 0
                &&& t@.previous_tick == 0
                &&& t@.tick_delta == 0
            },
    {
        if tick_time == 0 {
            return None;
        }
        let rate = NANOS_PER_SEC / tick_time;
        proof {
            let p = tick_time as int;
            assert(1_000_000_000int / p <= 1_000_000_000int) by (nonlinear_arith)
                requires
                    p >= 1,
            ;
        }
        Some(Time {
            tick_rate: rate as u32,
            tick_time,
            lag_time: 0,
            step_count: 0,
            bail_threshold,
            previous_frame: 0,
            delta_time: 0,
            tick_previous_frame: 0,
            tick_delta_time: 0,
        })
    }

    /// Whole ticks per second.
    pub fn tick_rate(&self) -> (r: u32)
        ensures
            r == self@.tick_rate,
    {
        self.tick_rate
    }

    /// Length of one tick, in nanoseconds.
    pub fn tick_time(&self) -> (r: u64)
        ensures
            r == self@.tick_time,
    {
        self.tick_time
    }

    /// Time between the last two frame updates, in nanoseconds.
    pub fn delta(&self) -> (r: u64)
        ensures
            r == self@.delta,
    {
        self.delta_time
    }

    /// Time between the last two ticks, in nanoseconds.
    pub fn delta_tick(&self) -> (r: u64)
        ensures
            r == self@.tick_delta,
    {
        self.tick_delta_time
    }

    /// Time owed to the simulation, in nanoseconds.
    pub fn lag(&self) -> (r: u64)
        ensures
            r == self@.lag,
    {
        self.lag_time
    }

    /// Ticks consumed since the last frame update.
    pub fn step_count(&self) -> (r: u32)
        ensures
            r == self@.step_count,
    {
        self.step_count
    }

    pub fn bail_threshold(&self) -> (r: u32)
        ensures
            r == self@.bail_threshold,
    {
        self.bail_threshold
    }

    /// Starts a frame at clock reading `now`: the time since the previous frame is
    /// added to the lag and the frame's tick count restarts at zero.
    pub fn update(&mut self, now: u64)
        requires
            old(self).wf(),
        ensures
            final(self).wf(),
            final(self)@ == old(self)@.updated(now as nat),
    {
        let delta = elapsed(self.previous_frame, now);
        if now > self.previous_frame {
            self.previous_frame = now;
        }
        self.delta_time = delta;
        self.lag_time = self.lag_time + delta;
        self.step_count = 0;
    }

    /// Whether another tick is due this frame.
    pub fn should_do_tick(&self) -> (r: bool)
        requires
            self.wf(),
        ensures
            r == self@.should_tick(),
    {
        self.lag_time >= self.tick_time && self.step_count < self.bail_threshold
    }

    /// Whether this frame has used up its ticks: the simulation is dropping time
    /// rather than catching up.
    pub fn falling_behind(&self) -> (r: bool)
        requires
            self.wf(),
        ensures
            r == self@.falling_behind(),
    {
        self.step_count >= self.bail_threshold
    }

    /// Consumes one due tick at clock reading `now`.
    pub fn tick(&mut self, now: u64)
        requires
            old(self).wf(),
            old(self)@.should_tick(),
        ensures
            final(self).wf(),
            final(self)@ == old(self)@.ticked(now as nat),
    {
        let delta = elapsed(self.tick_previous_frame, now);
        if now > self.tick_previous_frame {
            self.tick_previous_frame = now;
        }
        self.tick_delta_time = delta;
        self.lag_time = self.lag_time - self.tick_time;
        self.step_count = self.step_count + 1;
    }
}

proof fn lemma_after_ticks_shape(v: TimeView, nows: Seq<nat>)
    requires
        v.all_ticks_due(nows),
    ensures
        v.after_ticks(nows).lag == v.lag - nows.len() * v.tick_time,
        v.after_ticks(nows).step_count == v.step_count + nows.len(),
        v.after_ticks(nows).tick_time == v.tick_time,
        v.after_ticks(nows).bail_threshold == v.bail_threshold,
    decreases nows.len(),
{
    if nows.len() > 0 {
        let n = nows.len();
        let front = nows.drop_last();
        assert forall|i: int| 0 <= i < front.len() implies #[trigger] v.after_ticks(
            front.take(i),
        ).should_tick() by {
            assert(front.take(i) =~= nows.take(i));
            assert(v.after_ticks(nows.take(i)).should_tick());
        }
        lemma_after_ticks_shape(v, front);
        assert(nows.take(n - 1) =~= front);
        assert(v.after_ticks(nows.take(n - 1)).should_tick());
        let p = v.tick_time as int;
        let m = (n - 1) as int;
        assert(m * p + p == (m + 1) * p) by (nonlinear_arith);
    }
}

/// A run of ticks that were each due lowers the lag by exactly one tick period
/// per tick, at every point of the run. Ticking stops exactly after
/// `ticks_due()` ticks, and once it has stopped less than one period is owed,
/// unless the run was cut at the bail threshold.
pub proof fn lemma_tick_run(v: TimeView, nows: Seq<nat>)
    requires
        v.wf(),
        v.all_ticks_due(nows),
    ensures
        forall|i: int|
            0 <= i <= nows.len() ==> #[trigger] v.after_ticks(nows.take(i)).lag == v.lag - i
                * v.tick_time,
        v.after_ticks(nows).lag == v.lag - nows.len() * v.tick_time,
        !v.after_ticks(nows).should_tick() <==> nows.len() == v.ticks_due(),
        !v.after_ticks(nows).should_tick() ==> v.after_ticks(nows).lag < v.tick_time
            || v.after_ticks(nows).falling_behind(),
{
    assert forall|i: int| 0 <= i <= nows.len() implies #[trigger] v.after_ticks(nows.take(i)).lag
        == v.lag - i * v.tick_time by {
        let pre = nows.take(i);
        assert forall|j: int| 0 <= j < pre.len() implies #[trigger] v.after_ticks(
            pre.take(j),
        ).should_tick() by {
            assert(pre.take(j) =~= nows.take(j));
            assert(v.after_ticks(nows.take(j)).should_tick());
        }
        lemma_after_ticks_shape(v, pre);
    }
    lemma_after_ticks_shape(v, nows);
    let n = nows.len() as int;
    let p = v.tick_time as int;
    let l = v.lag as int;
    let owed = l / p;
    assert(nows.take(n) =~= nows);
    if n > 0 {
        assert(nows.take(n - 1).len() == n - 1);
        assert(v.after_ticks(nows.take(n - 1)).should_tick());
        assert(v.after_ticks(nows.take(n - 1)).lag == l - (n - 1) * p);
        assert(l - (n - 1) * p >= p);
        assert((n - 1) * p + p == n * p) by (nonlinear_arith);
        assert(n * p <= l);
        assert(n <= owed) by (nonlinear_arith)
            requires
                n * p <= l,
                p > 0,
                owed == l / p,
        ;
    }
    assert(l - owed * p < p && l - owed * p >= 0) by (nonlinear_arith)
        requires
            p > 0,
            l >= 0,
            owed == l / p,
    ;
    assert(l - n * p >= p ==> n < owed) by (nonlinear_arith)
        requires
            p > 0,
            l >= 0,
            owed == l / p,
            l - owed * p < p,
    ;
    assert(n < owed ==> l - n * p >= p) by (nonlinear_arith)
        requires
            p > 0,
            owed == l / p,
            l - owed * p >= 0,
    ;
}

/// However much time a frame update adds, the ticks consumed before the next
/// update never outnumber the bail threshold.
pub proof fn lemma_frame_ticks_bounded(v: TimeView, now: nat, nows: Seq<nat>)
    requires
        v.wf(),
        v.updated(now).all_ticks_due(nows),
    ensures
        nows.len() <= v.bail_threshold,
{
    let u = v.updated(now);
    if nows.len() > v.bail_threshold {
        let b = v.bail_threshold as int;
        let pre = nows.take(b);
        assert forall|j: int| 0 <= j < pre.len() implies #[trigger] u.after_ticks(
            pre.take(j),
        ).should_tick() by {
            assert(pre.take(j) =~= nows.take(j));
            assert(u.after_ticks(nows.take(j)).should_tick());
        }
        lemma_after_ticks_shape(u, pre);
        assert(u.after_ticks(nows.take(b)).should_tick());
    }
}

impl Default for Time {
    /// 128 ticks per second, at most 1024 ticks per frame.
    fn default() -> (r: Time)
        ensures
            r.wf(),
            r@.tick_rate == 128,
            r@.tick_time == 7_812_500,
            r@.bail_threshold == 1024,
            r@.lag == 0,
            r@.step_count == 0,
            r@.previous_frame == 0,
            r@.previous_tick == 0,
            r@.delta == 0,
            r@.tick_delta == 0,
    {
        Time {
            tick_rate: 128,
            tick_time: 7_812_500,
            lag_time: 0,
            step_count: 0,
            bail_threshold: 1024,
            previous_frame: 0,
            delta_time: 0,
            tick_previous_frame: 0,
            tick_delta_time: 0,
        }
    }
}

} // verus!
