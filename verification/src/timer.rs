use crate::time::{
    duration_as_nanos, duration_from_nanos, duration_nanos, instant_now, nanos_since,
    DURATION_MAX_NANOS,
};
use std::time::{Duration, Instant};
use vstd::prelude::*;

verus! {

/// The running average after one more sample: `average` over `samples`
/// samples, and then `delta`.
pub open spec fn averaged(average: u128, samples: u32, delta: u128) -> int {
    (average * samples + delta) / (samples + 1)
}

/// The time since the last tick, or nothing when the last tick is later.
pub open spec fn time_since(now: u128, last_tick: u128) -> u128 {
    if now >= last_tick {
        (now - last_tick) as u128
    } else {
        0
    }
}

/// A simple timer for measuring the time between two locations in code.
///
/// Times are counted in nanoseconds since the moment the timer was made.
pub struct Timer {
    epoch: Instant,
    last_tick: u128,
    accumulated_time: u128,
    next_report_time: u128,
    samples_since_last_report: u32,
    average_time: u128,
    report_rate: u128,
}

impl Timer {
    pub open spec fn wf(self) -> bool {
        &&& self.spec_last_tick() <= DURATION_MAX_NANOS
        &&& self.spec_accumulated_time() <= DURATION_MAX_NANOS
        &&& self.spec_average_time() <= DURATION_MAX_NANOS
        &&& self.spec_report_rate() <= DURATION_MAX_NANOS
        &&& self.spec_next_report_time() <= 2 * DURATION_MAX_NANOS
    }

    pub closed spec fn spec_last_tick(self) -> u128 {
        self.last_tick
    }

    pub closed spec fn spec_accumulated_time(self) -> u128 {
        self.accumulated_time
    }

    pub closed spec fn spec_next_report_time(self) -> u128 {
        self.next_report_time
    }

    pub closed spec fn spec_samples_since_last_report(self) -> u32 {
        self.samples_since_last_report
    }

    pub closed spec fn spec_average_time(self) -> u128 {
        self.average_time
    }

    pub closed spec fn spec_report_rate(self) -> u128 {
        self.report_rate
    }

    /// A timer counting from `epoch`, last ticked at `now`, that first
    /// reports at `report_now` plus the report rate. All times are in
    /// nanoseconds since `epoch`.
    pub fn new_at(epoch: Instant, now: u128, report_now: u128, report_rate: u128) -> (timer: Self)
        requires
            now <= DURATION_MAX_NANOS,
            report_now <= DURATION_MAX_NANOS,
            report_rate <= DURATION_MAX_NANOS,
        ensures
            timer.wf(),
            timer.spec_last_tick() == now,
            timer.spec_accumulated_time() == 0,
            timer.spec_next_report_time() == report_now + report_rate,
            timer.spec_samples_since_last_report() == 0,
            timer.spec_average_time() == 0,
            timer.spec_report_rate() == report_rate,
    {
        Timer {
            epoch,
            last_tick: now,
            accumulated_time: 0,
            next_report_time: report_now + report_rate,
            samples_since_last_report: 0,
            average_time: 0,
            report_rate,
        }
    }

    /// A timer that reports an average every `report_rate`.
    pub fn new_with_report_rate(report_rate: Duration) -> (timer: Self)
        ensures
            timer.wf(),
            timer.spec_accumulated_time() == 0,
            timer.spec_samples_since_last_report() == 0,
            timer.spec_average_time() == 0,
            timer.spec_report_rate() == duration_nanos(report_rate),
    {
        let epoch = instant_now();
        let now = nanos_since(&epoch);
        let report_now = nanos_since(&epoch);
        let rate = duration_as_nanos(&report_rate);
        Self::new_at(epoch, now, report_now, rate)
    }

    /// Start measuring at `now`.
    pub fn tick_at(&mut self, now: u128)
        requires
            old(self).wf(),
            now <= DURATION_MAX_NANOS,
        ensures
            final(self).wf(),
            final(self).spec_last_tick() == now,
            final(self).spec_accumulated_time() == old(self).spec_accumulated_time(),
            final(self).spec_next_report_time() == old(self).spec_next_report_time(),
            final(self).spec_samples_since_last_report() == old(
                self,
            ).spec_samples_since_last_report(),
            final(self).spec_average_time() == old(self).spec_average_time(),
            final(self).spec_report_rate() == old(self).spec_report_rate(),
    {
        self.last_tick = now;
    }

    /// Start measuring now.
    pub fn tick(&mut self)
        requires
            old(self).wf(),
        ensures
            final(self).wf(),
            final(self).spec_accumulated_time() == old(self).spec_accumulated_time(),
            final(self).spec_next_report_time() == old(self).spec_next_report_time(),
            final(self).spec_samples_since_last_report() == old(
                self,
            ).spec_samples_since_last_report(),
            final(self).spec_average_time() == old(self).spec_average_time(),
            final(self).spec_report_rate() == old(self).spec_report_rate(),
    {
        let now = nanos_since(&self.epoch);
        self.tick_at(now);
    }

    /// Taking a sample at `now` keeps every count within the range of a
    /// `Duration`, and the sample count within `u32`.
    pub open spec fn can_sample_at(self, now: u128) -> bool {
        let delta = time_since(now, self.spec_last_tick());
        &&& self.spec_accumulated_time() + delta <= DURATION_MAX_NANOS
        &&& self.spec_average_time() * self.spec_samples_since_last_report() + delta
            <= DURATION_MAX_NANOS
        &&& self.spec_samples_since_last_report() < u32::MAX
    }

    /// Whether a sample can be taken at `now` (see `can_sample_at`).
    pub fn can_tock_at(&self, now: u128) -> (fits: bool)
        requires
            self.wf(),
        ensures
            fits == self.can_sample_at(now),
    {
        let delta = if now >= self.last_tick {
            now - self.last_tick
        } else {
            0
        };
        assert(self.average_time * self.samples_since_last_report <= DURATION_MAX_NANOS * u32::MAX)
            by (nonlinear_arith)
            requires
                self.average_time <= DURATION_MAX_NANOS,
        ;
        let weighted = self.average_time * (self.samples_since_last_report as u128);
        delta <= DURATION_MAX_NANOS - self.accumulated_time && weighted <= DURATION_MAX_NANOS
            && delta <= DURATION_MAX_NANOS - weighted && self.samples_since_last_report
            < u32::MAX
    }

    /// Stop measuring at `now`: the time since the last tick is added to the
    /// total and folded into the running average. Returns that time.
    pub fn tock_at(&mut self, now: u128) -> (delta: u128)
        requires
            old(self).wf(),
            old(self).can_sample_at(now),
        ensures
            final(self).wf(),
            delta == time_since(now, old(self).spec_last_tick()),
            final(self).spec_accumulated_time() == old(self).spec_accumulated_time() + delta,
            final(self).spec_average_time() == averaged(
                old(self).spec_average_time(),
                old(self).spec_samples_since_last_report(),
                delta,
            ),
            final(self).spec_samples_since_last_report() == old(
                self,
            ).spec_samples_since_last_report() + 1,
            final(self).spec_last_tick() == old(self).spec_last_tick(),
            final(self).spec_next_report_time() == old(self).spec_next_report_time(),
            final(self).spec_report_rate() == old(self).spec_report_rate(),
    {
        let delta = if now >= self.last_tick {
            now - self.last_tick
        } else {
            0
        };
        self.accumulated_time = self.accumulated_time + delta;
        let samples = self.samples_since_last_report;
        let total = self.average_time * (samples as u128) + delta;
        let divisor = samples as u128 + 1;
        self.average_time = total / divisor;
        assert(self.average_time <= total) by (nonlinear_arith)
            requires
                self.average_time == total / divisor,
                divisor >= 1,
        ;
        self.samples_since_last_report = samples + 1;
        delta
    }

    /// Stop measuring now: the time since the last tick is added to the total
    /// and folded into the running average, and returned. Nothing happens,
    /// and `None` is returned, when that would take a count past the range of
    /// a `Duration` or the sample count past `u32::MAX`.
    pub fn tock(&mut self) -> (delta: Option<Duration>)
        requires
            old(self).wf(),
        ensures
            final(self).wf(),
            old(self).can_sample_at(DURATION_MAX_NANOS) ==> delta is Some,
            delta is None ==> *final(self) == *old(self),
            delta matches Some(d) ==> {
                &&& old(self).spec_last_tick() + duration_nanos(d) <= DURATION_MAX_NANOS
                &&& final(self).spec_accumulated_time() == old(self).spec_accumulated_time()
                    + duration_nanos(d)
                &&& final(self).spec_average_time() == averaged(
                    old(self).spec_average_time(),
                    old(self).spec_samples_since_last_report(),
                    duration_nanos(d),
                )
                &&& final(self).spec_samples_since_last_report() == old(
                    self,
                ).spec_samples_since_last_report() + 1
                &&& final(self).spec_last_tick() == old(self).spec_last_tick()
                &&& final(self).spec_next_report_time() == old(self).spec_next_report_time()
                &&& final(self).spec_report_rate() == old(self).spec_report_rate()
            },
    {
        let now = nanos_since(&self.epoch);
        proof {
            if self.can_sample_at(DURATION_MAX_NANOS) {
                lemma_sampling_later_fits_earlier(*self, now);
            }
        }
        if !self.can_tock_at(now) {
            return None;
        }
        let delta = self.tock_at(now);
        Some(duration_from_nanos(delta))
    }

    /// When `now` has reached the next report time, the average over the
    /// samples since the last report is returned and the average and sample
    /// count start over; the next report is due at `reset_now` plus the
    /// report rate. Otherwise nothing changes and `None` is returned.
    pub fn report_average_at(&mut self, now: u128, reset_now: u128) -> (average: Option<u128>)
        requires
            old(self).wf(),
            reset_now <= DURATION_MAX_NANOS,
        ensures
            final(self).wf(),
            now >= old(self).spec_next_report_time() ==> {
                &&& average == Some(old(self).spec_average_time())
                &&& final(self).spec_next_report_time() == reset_now + old(self).spec_report_rate()
                &&& final(self).spec_samples_since_last_report() == 0
                &&& final(self).spec_average_time() == 0
                &&& final(self).spec_last_tick() == old(self).spec_last_tick()
                &&& final(self).spec_accumulated_time() == old(self).spec_accumulated_time()
                &&& final(self).spec_report_rate() == old(self).spec_report_rate()
            },
            now < old(self).spec_next_report_time() ==> average is None && *final(self) == *old(
                self,
            ),
    {
        if now >= self.next_report_time {
            self.next_report_time = reset_now + self.report_rate;
            self.samples_since_last_report = 0;
            let time = self.average_time;
            self.average_time = 0;
            Some(time)
        } else {
            None
        }
    }

    /// The average time between ticks and tocks since the last report, when
    /// a report is due; `None` otherwise. After a report the next one is due
    /// a report rate after the time of this one, so it is at least a report
    /// rate later than the one just given.
    pub fn report_average(&mut self) -> (average: Option<Duration>)
        requires
            old(self).wf(),
        ensures
            final(self).wf(),
            old(self).spec_next_report_time() == 0 ==> average is Some,
            old(self).spec_next_report_time() > DURATION_MAX_NANOS ==> average is None,
            average matches Some(d) ==> {
                &&& duration_nanos(d) == old(self).spec_average_time()
                &&& final(self).spec_samples_since_last_report() == 0
                &&& final(self).spec_average_time() == 0
                &&& old(self).spec_report_rate() <= final(self).spec_next_report_time()
                    <= old(self).spec_report_rate() + DURATION_MAX_NANOS
                &&& final(self).spec_next_report_time() >= old(self).spec_next_report_time()
                    + old(self).spec_report_rate()
                &&& final(self).spec_last_tick() == old(self).spec_last_tick()
                &&& final(self).spec_accumulated_time() == old(self).spec_accumulated_time()
                &&& final(self).spec_report_rate() == old(self).spec_report_rate()
            },
            average is None ==> *final(self) == *old(self),
    {
        let now = nanos_since(&self.epoch);
        match self.report_average_at(now, now) {
            Some(time) => Some(duration_from_nanos(time)),
            None => None,
        }
    }
}

/// A sample that fits at a later time fits at any earlier one: the time since
/// the last tick only grows with the time of the sample.
proof fn lemma_sampling_later_fits_earlier(timer: Timer, now: u128)
    requires
        now <= DURATION_MAX_NANOS,
        timer.can_sample_at(DURATION_MAX_NANOS),
    ensures
        timer.can_sample_at(now),
{
}

/// Reports come at least a report rate apart: after a report at `now`, no
/// report is due at any time before `now` plus the report rate, and in
/// particular at `now` itself when the rate is not zero.
pub proof fn law_reports_are_a_rate_apart(before: Timer, after: Timer, now: u128, later: u128)
    requires
        before.wf(),
        now <= DURATION_MAX_NANOS,
        now >= before.spec_next_report_time(),
        after.spec_next_report_time() == now + before.spec_report_rate(),
        later < now + before.spec_report_rate(),
    ensures
        later < after.spec_next_report_time(),
        after.spec_next_report_time() >= before.spec_next_report_time()
            + before.spec_report_rate(),
        before.spec_report_rate() > 0 ==> now < after.spec_next_report_time(),
{
}

/// When every sample takes the same time, the running average is that time.
pub proof fn law_average_of_equal_samples(time: u128, samples: u32)
    ensures
        averaged(time, samples, time) == time,
{
    assert((time * samples + time) == time * (samples + 1)) by (nonlinear_arith);
    assert((time * (samples + 1)) / (samples + 1) == time) by (nonlinear_arith)
        requires
            samples + 1 > 0,
    ;
}

/// The running average that folding the samples `deltas`, one at a time,
/// into an empty average gives.
pub open spec fn running_average(deltas: Seq<u128>) -> int
    decreases deltas.len(),
{
    if deltas.len() == 0 {
        0
    } else {
        (running_average(deltas.drop_last()) * (deltas.len() - 1) + deltas.last()) / (
        deltas.len() as int)
    }
}

/// Over a run of tocks that starts with no sample (a new timer, or one that
/// just reported), the average the timer holds, and so the one it reports, is
/// the running average of the measured times, and the sample count is their
/// number.
pub proof fn law_average_over_tocks(timers: Seq<Timer>, deltas: Seq<u128>)
    requires
        timers.len() == deltas.len() + 1,
        timers[0].spec_samples_since_last_report() == 0,
        timers[0].spec_average_time() == 0,
        forall|i: int|
            0 <= i < deltas.len() ==> {
                &&& #[trigger] timers[i + 1].spec_average_time() == averaged(
                    timers[i].spec_average_time(),
                    timers[i].spec_samples_since_last_report(),
                    deltas[i],
                )
                &&& timers[i + 1].spec_samples_since_last_report()
                    == timers[i].spec_samples_since_last_report() + 1
            },
    ensures
        timers.last().spec_average_time() == running_average(deltas),
        timers.last().spec_samples_since_last_report() == deltas.len(),
    decreases deltas.len(),
{
    if deltas.len() > 0 {
        let n = deltas.len() - 1;
        let before = timers.drop_last();
        assert forall|i: int| 0 <= i < deltas.drop_last().len() implies {
            &&& #[trigger] before[i + 1].spec_average_time() == averaged(
                before[i].spec_average_time(),
                before[i].spec_samples_since_last_report(),
                deltas.drop_last()[i],
            )
            &&& before[i + 1].spec_samples_since_last_report()
                == before[i].spec_samples_since_last_report() + 1
        } by {
            assert(timers[i + 1].spec_average_time() == averaged(
                timers[i].spec_average_time(),
                timers[i].spec_samples_since_last_report(),
                deltas[i],
            ));
        }
        law_average_over_tocks(before, deltas.drop_last());
        assert(before.last() == timers[n]);
        assert(timers[n + 1].spec_average_time() == averaged(
            timers[n].spec_average_time(),
            timers[n].spec_samples_since_last_report(),
            deltas[n],
        ));
    }
}

/// When every one of at least one sample took the same time, the running
/// average, and so the reported average, is that time.
pub proof fn law_running_average_of_equal_samples(deltas: Seq<u128>, time: u128)
    requires
        deltas.len() >= 1,
        forall|i: int| 0 <= i < deltas.len() ==> #[trigger] deltas[i] == time,
    ensures
        running_average(deltas) == time,
    decreases deltas.len(),
{
    let n: int = deltas.len() - 1;
    if n > 0 {
        law_running_average_of_equal_samples(deltas.drop_last(), time);
    } else {
        assert(running_average(deltas.drop_last()) == 0);
    }
    let prev = running_average(deltas.drop_last());
    assert(n > 0 ==> prev == time);
    assert(deltas.last() == time);
    assert((prev * n + time) / (n + 1) == time) by (nonlinear_arith)
        requires
            n >= 0,
            n > 0 ==> prev == time,
            n == 0 ==> prev == 0,
    ;
}

/// When, since the timer was made or last reported, k >= 1 tocks each
/// measured the same time, the timer holds that time as its average and k as
/// its sample count, so the next due report gives exactly that time.
pub proof fn law_equal_tocks_report_that_time(timers: Seq<Timer>, deltas: Seq<u128>, time: u128)
    requires
        timers.len() == deltas.len() + 1,
        deltas.len() >= 1,
        timers[0].spec_samples_since_last_report() == 0,
        timers[0].spec_average_time() == 0,
        forall|i: int|
            0 <= i < deltas.len() ==> {
                &&& #[trigger] timers[i + 1].spec_average_time() == averaged(
                    timers[i].spec_average_time(),
                    timers[i].spec_samples_since_last_report(),
                    deltas[i],
                )
                &&& timers[i + 1].spec_samples_since_last_report()
                    == timers[i].spec_samples_since_last_report() + 1
            },
        forall|i: int| 0 <= i < deltas.len() ==> #[trigger] deltas[i] == time,
    ensures
        timers.last().spec_average_time() == time,
        timers.last().spec_samples_since_last_report() == deltas.len(),
{
    law_average_over_tocks(timers, deltas);
    law_running_average_of_equal_samples(deltas, time);
}

/// The running average stays between the smallest and the largest sample:
/// folding a sample into an average never leaves the range they span.
pub proof fn law_average_stays_between_samples(average: u128, samples: u32, delta: u128)
    requires
        samples > 0,
    ensures
        averaged(average, samples, delta) >= if average <= delta { average } else { delta },
        averaged(average, samples, delta) <= if average <= delta { delta } else { average },
{
    let lo: int = if average <= delta { average as int } else { delta as int };
    let hi: int = if average <= delta { delta as int } else { average as int };
    let n: int = samples as int;
    let total: int = average * samples + delta;
    assert(lo * (n + 1) <= total) by (nonlinear_arith)
        requires
            lo <= average,
            lo <= delta,
            n > 0,
            total == average * n + delta,
    ;
    assert(total <= hi * (n + 1)) by (nonlinear_arith)
        requires
            average <= hi,
            delta <= hi,
            n > 0,
            total == average * n + delta,
    ;
    assert(total / (n + 1) >= lo) by (nonlinear_arith)
        requires
            lo * (n + 1) <= total,
            n > 0,
    ;
    assert(total / (n + 1) <= hi) by (nonlinear_arith)
        requires
            total <= hi * (n + 1),
            n > 0,
            lo >= 0,
    ;
}

} // verus!
