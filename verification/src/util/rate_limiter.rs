//! A limiter that lets an action through at most once per interval.

use std::time::{Duration, Instant};

use vstd::prelude::*;

verus! {

#[verifier::external_type_specification]
#[verifier::external_body]
pub struct ExInstant(Instant);

/// `Instant::now`: the current reading of the monotonic clock. Nothing is
/// stated of the reading.
pub assume_specification[ Instant::now ]() -> Instant;

/// The total number of nanoseconds in `d`, as `Duration::as_nanos` returns it.
pub uninterp spec fn duration_nanos(d: Duration) -> u128;

/// `Duration::as_nanos`: the whole duration counted in nanoseconds, exactly.
pub assume_specification[ Duration::as_nanos ](d: &Duration) -> (r: u128)
    ensures
        r == duration_nanos(*d),
;

/// `Duration::from_secs`: a duration of `secs` whole seconds, that is
/// `secs * 10^9` nanoseconds.
pub assume_specification[ Duration::from_secs ](secs: u64) -> (r: Duration)
    ensures
        duration_nanos(r) == secs * 1_000_000_000,
;

/// The time from `earlier` to `now`, as `Instant::duration_since` returns it
/// (zero when `earlier` is the later one).
pub uninterp spec fn elapsed(now: Instant, earlier: Instant) -> Duration;

/// `Instant::duration_since`: depends on the two readings alone, and no time
/// elapses from a reading to itself.
pub assume_specification[ Instant::duration_since ](now: &Instant, earlier: Instant) -> (r: Duration)
    ensures
        r == elapsed(*now, earlier),
        earlier == *now ==> duration_nanos(r) == 0,
;

/// Whether a call at clock reading `now` on a limiter whose last run was
/// `last` (if any) lets the action through: it never ran, or at least
/// `interval` has passed since it last ran.
pub open spec fn due_at(last: Option<Instant>, interval: Duration, now: Instant) -> bool {
    match last {
        None => true,
        Some(earlier) => duration_nanos(elapsed(now, earlier)) >= duration_nanos(interval),
    }
}

/// The outcome of one call of [`RateLimiter::ready`] at clock reading `now`:
/// the result is [`due_at`], a run records `now`, and a refusal changes nothing.
pub open spec fn ready_outcome(
    before_last: Option<Instant>,
    interval: Duration,
    after_last: Option<Instant>,
    now: Instant,
    r: bool,
) -> bool {
    &&& r == due_at(before_last, interval, now)
    &&& r ==> after_last == Some(now)
    &&& !r ==> after_last == before_last
}

/// Runs are an interval apart: a call lets the action through after an earlier
/// run only when at least the interval has passed since that run, and the run
/// it records is the reading of that call. With a zero interval every call
/// runs.
pub proof fn lemma_runs_an_interval_apart(
    earlier: Instant,
    interval: Duration,
    after_last: Option<Instant>,
    now: Instant,
    r: bool,
)
    requires
        ready_outcome(Some(earlier), interval, after_last, now, r),
    ensures
        r ==> duration_nanos(elapsed(now, earlier)) >= duration_nanos(interval),
        r ==> after_last == Some(now),
        !r ==> after_last == Some(earlier),
        duration_nanos(interval) == 0 ==> r,
{
}

/// Lets an action through at most once per `interval`.
pub struct RateLimiter {
    interval: Duration,
    last: Option<Instant>,
}

impl RateLimiter {
    /// The minimum time between two actions.
    pub closed spec fn spec_interval(self) -> Duration {
        self.interval
    }

    /// When the last action was let through, if ever.
    pub closed spec fn last_fired(self) -> Option<Instant> {
        self.last
    }

    pub fn new(interval: Duration) -> (r: Self)
        ensures
            r.spec_interval() == interval,
            r.last_fired() is None,
    {
        RateLimiter { interval, last: None }
    }

    /// A limiter with a one-second interval.
    pub fn per_second() -> (r: Self)
        ensures
            duration_nanos(r.spec_interval()) == 1_000_000_000,
            r.last_fired() is None,
    {
        Self::new(Duration::from_secs(1))
    }

    /// Whether the action may run at clock reading `now`: it may if it never
    /// ran, or if at least the interval has passed from its last run to `now`;
    /// `now` is then recorded as the last run. Otherwise nothing changes.
    pub fn ready_at(&mut self, now: Instant) -> (r: bool)
        ensures
            final(self).spec_interval() == old(self).spec_interval(),
            r == (match old(self).last_fired() {
                None => true,
                Some(earlier) => duration_nanos(elapsed(now, earlier)) >= duration_nanos(
                    old(self).spec_interval(),
                ),
            }),
            r ==> final(self).last_fired() == Some(now),
            !r ==> final(self).last_fired() == old(self).last_fired(),
            old(self).last_fired() == Some(now) && duration_nanos(old(self).spec_interval()) > 0
                ==> !r,
    {
        let due = match &self.last {
            Some(last) => {
                let since = now.duration_since(*last);
                since.as_nanos() >= self.interval.as_nanos()
            },
            None => true,
        };
        if due {
            self.last = Some(now);
        }
        due
    }

    /// Whether the action may run now, judged by [`RateLimiter::ready_at`] at
    /// the current clock reading. Which reading the call sees is not known in
    /// advance; the outcome is stated for it.
    pub fn ready(&mut self) -> (r: bool)
        ensures
            final(self).spec_interval() == old(self).spec_interval(),
            exists|now: Instant|
                #[trigger] ready_outcome(
                    old(self).last_fired(),
                    old(self).spec_interval(),
                    final(self).last_fired(),
                    now,
                    r,
                ),
    {
        let now = Instant::now();
        let ghost reading = now;
        let due = self.ready_at(now);
        assert(ready_outcome(
            old(self).last_fired(),
            old(self).spec_interval(),
            self.last_fired(),
            reading,
            due,
        ));
        due
    }
}

} // verus!
