//! Sample scheduler: one timer per metric, deciding when to sample, publishing
//! each outcome into the metric's snapshot, and stopping on request. The
//! caller performs the sampling and the waiting; these types only decide.
use crate::snapshot::{after_writes, Snapshot, SnapshotView};
use vstd::prelude::*;

verus! {

/// What a metric's sampling loop does next.
#[derive(Debug, Clone, Copy, PartialEq, Eq, Structural)]
pub enum SamplerAction {
    /// Sample now, then report the outcome with `complete`.
    Sample,
    /// Wait this many nanoseconds, then ask again.
    Wait(u64),
    /// The metric has no cadence of its own (interval zero): never sample.
    Idle,
    /// The scheduler was stopped: leave the loop.
    Stop,
}

/// The first tick strictly after `now`, on the grid `due + k * interval`,
/// skipping missed ticks; `u64::MAX` when it lies beyond.
pub open spec fn next_tick(due: u64, interval: u64, now: u64) -> u64
    recommends
        interval > 0,
        due <= now,
{
    let t = due + ((now - due) / (interval as int) + 1) * interval;
    if t > u64::MAX {
        u64::MAX
    } else {
        t as u64
    }
}

/// The action that `poll` at `now` decides for a sampler in state `s`.
pub open spec fn poll_action(s: SamplerView, now: u64) -> SamplerAction {
    if s.stopped {
        SamplerAction::Stop
    } else if s.interval == 0 {
        SamplerAction::Idle
    } else if now < s.next_due {
        SamplerAction::Wait((s.next_due - now) as u64)
    } else {
        SamplerAction::Sample
    }
}

/// The state after `poll` at `now`: a due tick moves the next one to the
/// first grid point after `now`; nothing else changes.
pub open spec fn poll_state(s: SamplerView, now: u64) -> SamplerView {
    if poll_action(s, now) == SamplerAction::Sample {
        SamplerView { next_due: next_tick(s.next_due, s.interval, now), ..s }
    } else {
        s
    }
}

/// The state after reporting a sample taken at `now`: the text of a success
/// (`Some`) is published and the failure run ends; a failure (`None`)
/// publishes "unavailable" and lengthens the run.
pub open spec fn completed(s: SamplerView, outcome: Option<Seq<char>>, now: u64) -> SamplerView {
    match outcome {
        Some(t) => SamplerView {
            failures: 0,
            snapshot: after_writes(s.snapshot, seq![Some((t, now))]),
            ..s
        },
        None => SamplerView {
            failures: if s.failures == u64::MAX {
                u64::MAX
            } else {
                (s.failures + 1) as u64
            },
            snapshot: after_writes(s.snapshot, seq![None]),
            ..s
        },
    }
}

/// The text of a sample outcome.
pub open spec fn outcome_view(outcome: Option<String>) -> Option<Seq<char>> {
    match outcome {
        Some(t) => Some(t@),
        None => None,
    }
}

/// What a sampler holds.
pub struct SamplerView {
    pub interval: u64,
    pub next_due: u64,
    pub stopped: bool,
    pub failures: u64,
    pub snapshot: SnapshotView,
}

/// The timer and snapshot of one metric.
pub struct Sampler {
    interval: u64,
    next_due: u64,
    stopped: bool,
    failures: u64,
    snapshot: Snapshot,
}

impl View for Sampler {
    type V = SamplerView;

    closed spec fn view(&self) -> SamplerView {
        SamplerView {
            interval: self.interval,
            next_due: self.next_due,
            stopped: self.stopped,
            failures: self.failures,
            snapshot: self.snapshot@,
        }
    }
}

impl Sampler {
    /// A sampler with the given interval in nanoseconds (zero: no cadence of
    /// its own), whose first tick is due at `now`.
    pub fn new(interval: u64, now: u64) -> (r: Sampler)
        ensures
            r@.interval == interval,
            r@.next_due == now,
            !r@.stopped,
            r@.failures == 0,
            r@.snapshot.text == Seq::<char>::empty(),
            r@.snapshot.last_success is None,
    {
        Sampler { interval, next_due: now, stopped: false, failures: 0, snapshot: Snapshot::new() }
    }

    /// Decides what the sampling loop does at time `now`. A due tick moves the
    /// next one to the first grid point after `now`.
    pub fn poll(&mut self, now: u64) -> (r: SamplerAction)
        ensures
            r == poll_action(old(self)@, now),
            final(self)@ == poll_state(old(self)@, now),
    {
        if self.stopped {
            SamplerAction::Stop
        } else if self.interval == 0 {
            SamplerAction::Idle
        } else if now < self.next_due {
            SamplerAction::Wait(self.next_due - now)
        } else {
            let gap = now - self.next_due;
            let k: u64 = gap / self.interval;
            proof {
                vstd::arithmetic::div_mod::lemma_fundamental_div_mod(gap as int, self.interval as int);
                assert(k * self.interval <= gap) by (nonlinear_arith)
                    requires
                        gap as int == self.interval * (gap as int / self.interval as int) + (gap as int % self.interval as int),
                        k == gap as int / self.interval as int,
                        gap as int % self.interval as int >= 0,
                ;
            }
            assert(((k as int) + 1) * (self.interval as int) == (k as int) * (self.interval as int)
                + self.interval as int) by (nonlinear_arith);
            let steps: u128 = k as u128 + 1;
            let span: u128 = steps * (self.interval as u128);
            let t: u128 = self.next_due as u128 + span;
            self.next_due = if t > u64::MAX as u128 {
                u64::MAX
            } else {
                t as u64
            };
            SamplerAction::Sample
        }
    }

    /// Reports the outcome of a sample taken at `now`: the rendered text of a
    /// success, or `None` for a failure, which publishes "unavailable" and
    /// counts one more failure in a row. A sample that was under way when the
    /// scheduler stopped is still published.
    pub fn complete(&mut self, outcome: Option<String>, now: u64)
        ensures
            final(self)@ == completed(
                old(self)@,
                outcome_view(outcome),
                now,
            ),
    {
        match outcome {
            Some(text) => {
                self.snapshot.publish(text, now);
                self.failures = 0;
            },
            None => {
                self.snapshot.publish_unavailable();
                self.failures = if self.failures == u64::MAX {
                    u64::MAX
                } else {
                    self.failures + 1
                };
            },
        }
    }

    /// Signals the loop to stop at its next poll.
    pub fn stop(&mut self)
        ensures
            final(self)@ == (SamplerView { stopped: true, ..old(self)@ }),
    {
        self.stopped = true;
    }

    /// The latest published text.
    pub fn text(&self) -> (r: String)
        ensures
            r@ == self@.snapshot.text,
    {
        self.snapshot.read()
    }

    /// Failures in a row since the last success.
    pub fn failures(&self) -> (r: u64)
        ensures
            r == self@.failures,
    {
        self.failures
    }

    /// The time of the last successful sample, if any.
    pub fn last_success(&self) -> (r: Option<u64>)
        ensures
            r == self@.snapshot.last_success,
    {
        self.snapshot.last_success()
    }
}

/// The samplers of all metrics, in the order of the status line.
pub struct Scheduler {
    samplers: Vec<Sampler>,
}

impl View for Scheduler {
    type V = Seq<SamplerView>;

    closed spec fn view(&self) -> Seq<SamplerView> {
        self.samplers@.map_values(|s: Sampler| s@)
    }
}

impl Scheduler {
    /// One sampler per interval (nanoseconds; zero: no cadence of its own),
    /// each with its first tick due at `now`.
    pub fn new(intervals: &Vec<u64>, now: u64) -> (r: Scheduler)
        ensures
            r@.len() == intervals@.len(),
            forall|i: int|
                0 <= i < intervals@.len() ==> (#[trigger] r@[i]).interval == intervals@[i]
                    && r@[i].next_due == now && !r@[i].stopped && r@[i].failures == 0
                    && r@[i].snapshot.text == Seq::<char>::empty()
                    && r@[i].snapshot.last_success is None,
    {
        let mut samplers: Vec<Sampler> = Vec::new();
        let mut i: usize = 0;
        while i < intervals.len()
            invariant
                i <= intervals@.len(),
                samplers@.len() == i,
                forall|j: int|
                    0 <= j < i ==> (#[trigger] samplers@[j])@.interval == intervals@[j]
                        && samplers@[j]@.next_due == now && !samplers@[j]@.stopped
                        && samplers@[j]@.failures == 0 && samplers@[j]@.snapshot.text == Seq::<
                        char,
                    >::empty() && samplers@[j]@.snapshot.last_success is None,
            decreases intervals@.len() - i,
        {
            samplers.push(Sampler::new(intervals[i], now));
            i = i + 1;
        }
        Scheduler { samplers }
    }

    /// The number of samplers.
    pub fn len(&self) -> (r: usize)
        ensures
            r == self@.len(),
    {
        self.samplers.len()
    }

    /// `Sampler::poll` on sampler `i`; the others are left alone.
    pub fn poll(&mut self, i: usize, now: u64) -> (r: SamplerAction)
        requires
            i < old(self)@.len(),
        ensures
            r == poll_action(old(self)@[i as int], now),
            final(self)@ == old(self)@.update(i as int, poll_state(old(self)@[i as int], now)),
    {
        let mut s = self.samplers.remove(i);
        let r = s.poll(now);
        self.samplers.insert(i, s);
        assert(self@ =~= old(self)@.update(i as int, poll_state(old(self)@[i as int], now)));
        r
    }

    /// `Sampler::complete` on sampler `i`; the others are left alone.
    pub fn complete(&mut self, i: usize, outcome: Option<String>, now: u64)
        requires
            i < old(self)@.len(),
        ensures
            final(self)@ == old(self)@.update(
                i as int,
                completed(
                    old(self)@[i as int],
                    outcome_view(outcome),
                    now,
                ),
            ),
    {
        let ghost o = outcome_view(outcome);
        let mut s = self.samplers.remove(i);
        s.complete(outcome, now);
        self.samplers.insert(i, s);
        assert(self@ =~= old(self)@.update(i as int, completed(old(self)@[i as int], o, now)));
    }

    /// Signals every sampling loop to stop at its next poll.
    pub fn stop(&mut self)
        ensures
            final(self)@.len() == old(self)@.len(),
            forall|i: int|
                0 <= i < old(self)@.len() ==> #[trigger] final(self)@[i] == (SamplerView {
                    stopped: true,
                    ..old(self)@[i]
                }),
    {
        let mut i: usize = 0;
        while i < self.samplers.len()
            invariant
                i <= self@.len(),
                self@.len() == old(self)@.len(),
                forall|j: int|
                    0 <= j < i ==> #[trigger] self@[j] == (SamplerView {
                        stopped: true,
                        ..old(self)@[j]
                    }),
                forall|j: int| i <= j < self@.len() ==> #[trigger] self@[j] == old(self)@[j],
            decreases old(self)@.len() - i,
        {
            let ghost prev = self@;
            let mut s = self.samplers.remove(i);
            s.stop();
            self.samplers.insert(i, s);
            assert(self@ =~= prev.update(i as int, SamplerView { stopped: true, ..prev[i as int] }));
            i = i + 1;
        }
    }

    /// The latest text of every sampler, in order.
    pub fn texts(&self) -> (r: Vec<String>)
        ensures
            r@.len() == self@.len(),
            forall|i: int| 0 <= i < r@.len() ==> (#[trigger] r@[i])@ == self@[i].snapshot.text,
    {
        let mut r: Vec<String> = Vec::new();
        let mut i: usize = 0;
        while i < self.samplers.len()
            invariant
                i <= self@.len(),
                r@.len() == i,
                forall|j: int| 0 <= j < i ==> (#[trigger] r@[j])@ == self@[j].snapshot.text,
            decreases self@.len() - i,
        {
            r.push(self.samplers[i].text());
            i = i + 1;
        }
        r
    }
}

/// A due tick is followed by the next one strictly later, on the same grid.
pub proof fn lemma_next_tick_after(due: u64, interval: u64, now: u64)
    requires
        interval > 0,
        due <= now,
        now < u64::MAX,
    ensures
        now < next_tick(due, interval, now),
{
    let g = (now - due) as int;
    let i = interval as int;
    vstd::arithmetic::div_mod::lemma_fundamental_div_mod(g, i);
    assert((g / i + 1) * i > g) by (nonlinear_arith)
        requires
            g == i * (g / i) + g % i,
            g % i < i,
            i > 0,
    ;
}

} // verus!
