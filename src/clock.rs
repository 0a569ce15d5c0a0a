//! Fixed-timestep pacing: real time is poured into a bucket and drained in whole
//! update periods.
use std::time::{Duration, Instant};
use vstd::prelude::*;

verus! {

#[verifier::external_type_specification]
#[verifier::external_body]
pub struct ExInstant(Instant);

/// Relies on `std::time::Instant::now`: reads the monotonic clock.
#[verifier::external_body]
fn instant_now() -> (r: Instant) {
    Instant::now()
}

/// Relies on `std::time::Instant::duration_since`: the time from `earlier` to
/// `later`, zero when `earlier` is the later one.
#[verifier::external_body]
fn duration_between(later: &Instant, earlier: &Instant) -> (r: Duration) {
    later.duration_since(*earlier)
}

/// Relies on `std::time::Duration::as_nanos`: the whole nanoseconds in `d`.
#[verifier::external_body]
fn whole_nanos(d: &Duration) -> (r: u128) {
    d.as_nanos()
}

/// Nanoseconds in one second.
pub const NANOS_PER_SECOND: u64 = 1_000_000_000;

/// The number of whole periods that `leftover + delta` holds.
pub open spec fn updates_due(leftover: nat, period: nat, delta: nat) -> nat
    recommends
        period > 0,
{
    (leftover + delta) / period
}

/// What stays in the bucket once whole periods are drained.
pub open spec fn leftover_after(leftover: nat, period: nat, delta: nat) -> nat
    recommends
        period > 0,
{
    (leftover + delta) % period
}

/// The sum of a sequence.
pub open spec fn sum_of(s: Seq<nat>) -> nat
    decreases s.len(),
{
    if s.len() == 0 {
        0
    } else {
        sum_of(s.drop_last()) + s.last()
    }
}

/// `states` are a clock's successive states and `elapsed[i]`, `counts[i]` what
/// the tick from `states[i]` to `states[i + 1]` measured and returned, as
/// `GameLoop::tick`, `GameLoop::tick_at` and `GameLoop::advance` state it.
pub open spec fn tick_run(states: Seq<GameLoop>, elapsed: Seq<nat>, counts: Seq<nat>) -> bool {
    &&& states.len() == elapsed.len() + 1
    &&& counts.len() == elapsed.len()
    &&& states[0].wf()
    &&& forall|i: int|
        #![trigger states[i + 1]]
        0 <= i < elapsed.len() ==> {
            &&& states[i + 1].period() == states[i].period()
            &&& counts[i] == updates_due(states[i].leftover(), states[i].period(), elapsed[i])
            &&& states[i + 1].leftover() == leftover_after(
                states[i].leftover(),
                states[i].period(),
                elapsed[i],
            )
        }
}

/// The nanoseconds a tick counts for a reading `nanos` after the previous one:
/// all of it, or as much as the bucket can still take.
pub open spec fn counted_nanos(leftover: nat, nanos: u128) -> nat {
    if nanos > u64::MAX - leftover {
        (u64::MAX - leftover) as nat
    } else {
        nanos as nat
    }
}

/// Fixed-timestep clock. Time is kept in nanoseconds.
pub struct GameLoop {
    last_update: Instant,
    accumulated_time: u64,
    update_rate: u64,
}

impl GameLoop {
    /// The leftover time in the bucket, in nanoseconds.
    pub closed spec fn leftover(&self) -> nat {
        self.accumulated_time as nat
    }

    /// The fixed update period, in nanoseconds.
    pub closed spec fn period(&self) -> nat {
        self.update_rate as nat
    }

    /// The clock reading the next tick measures from.
    pub closed spec fn last_instant(&self) -> Instant {
        self.last_update
    }

    /// The period is positive and the bucket never holds a whole period.
    pub open spec fn wf(&self) -> bool {
        &&& self.period() > 0
        &&& self.leftover() < self.period()
    }

    /// A clock that runs `updates_per_second` updates per second of real time,
    /// measuring its first tick from now.
    /// Time is counted in nanoseconds, so at most one update per nanosecond.
    pub fn new(updates_per_second: u64) -> (r: Self)
        requires
            0 < updates_per_second <= NANOS_PER_SECOND,
        ensures
            r.wf(),
            r.leftover() == 0,
            r.period() == NANOS_PER_SECOND as nat / updates_per_second as nat,
    {
        GameLoop::new_at(updates_per_second, instant_now())
    }

    /// A clock that runs `updates_per_second` updates per second, measuring its
    /// first tick from `start`.
    pub fn new_at(updates_per_second: u64, start: Instant) -> (r: Self)
        requires
            0 < updates_per_second <= NANOS_PER_SECOND,
        ensures
            r.wf(),
            r.leftover() == 0,
            r.period() == NANOS_PER_SECOND as nat / updates_per_second as nat,
            r.last_instant() == start,
    {
        let rate: u64 = NANOS_PER_SECOND / updates_per_second;
        assert(rate >= 1) by (nonlinear_arith)
            requires
                rate == NANOS_PER_SECOND / updates_per_second,
                0 < updates_per_second <= NANOS_PER_SECOND,
        ;
        GameLoop { last_update: start, accumulated_time: 0, update_rate: rate }
    }

    /// The update period in nanoseconds.
    pub fn update_period(&self) -> (r: u64)
        ensures
            r as nat == self.period(),
    {
        self.update_rate
    }

    /// The clock reading the next tick measures from.
    pub fn last_update(&self) -> (r: Instant)
        ensures
            r == self.last_instant(),
    {
        self.last_update
    }

    /// The time left in the bucket, in nanoseconds.
    pub fn accumulated(&self) -> (r: u64)
        ensures
            r as nat == self.leftover(),
    {
        self.accumulated_time
    }

    /// Pours `delta` nanoseconds into the bucket and drains it in whole periods,
    /// returning how many periods were drained.
    pub fn advance(&mut self, delta: u64) -> (update_count: u64)
        requires
            old(self).wf(),
            old(self).leftover() + delta <= u64::MAX,
        ensures
            final(self).wf(),
            final(self).period() == old(self).period(),
            update_count as nat == updates_due(old(self).leftover(), old(self).period(), delta as nat),
            final(self).leftover() == leftover_after(
                old(self).leftover(),
                old(self).period(),
                delta as nat,
            ),
            final(self).last_instant() == old(self).last_instant(),
    {
        let ghost start: nat = (self.accumulated_time + delta) as nat;
        let ghost period: nat = self.update_rate as nat;
        self.accumulated_time = self.accumulated_time + delta;
        let mut update_count: u64 = 0;
        while self.accumulated_time >= self.update_rate
            invariant
                self.update_rate as nat == period,
                self.last_update == old(self).last_update,
                period > 0,
                update_count as nat * period + self.accumulated_time as nat == start,
                start <= u64::MAX,
            decreases self.accumulated_time,
        {
            self.accumulated_time = self.accumulated_time - self.update_rate;
            assert(update_count as nat * period + period <= start);
            assert((update_count as nat + 1) * period == update_count as nat * period + period)
                by (nonlinear_arith);
            assert(update_count as nat + 1 <= start) by (nonlinear_arith)
                requires
                    (update_count as nat + 1) * period <= start,
                    period > 0,
            ;
            update_count = update_count + 1;
        }
        proof {
            lemma_div_mod_unique(start, period, update_count as nat, self.accumulated_time as nat);
        }
        update_count
    }

    /// Measures the real time since the previous tick (or since construction),
    /// and drains the bucket. Returns the elapsed nanoseconds and the number of
    /// updates due. The elapsed time saturates at what the bucket can still take.
    pub fn tick(&mut self) -> (r: (u64, u64))
        requires
            old(self).wf(),
        ensures
            final(self).wf(),
            final(self).period() == old(self).period(),
            r.1 as nat == updates_due(old(self).leftover(), old(self).period(), r.0 as nat),
            final(self).leftover() == leftover_after(
                old(self).leftover(),
                old(self).period(),
                r.0 as nat,
            ),
    {
        let now = instant_now();
        let elapsed = duration_between(&now, &self.last_update);
        let nanos = whole_nanos(&elapsed);
        self.tick_at(now, nanos)
    }

    /// A tick whose clock reading is `now`, `nanos` after the previous reading:
    /// counts that time (saturating at what the bucket can still take), drains
    /// the bucket, and keeps `now` as the reading the next tick measures from.
    /// Returns the nanoseconds counted and the number of updates due.
    pub fn tick_at(&mut self, now: Instant, nanos: u128) -> (r: (u64, u64))
        requires
            old(self).wf(),
        ensures
            final(self).wf(),
            final(self).period() == old(self).period(),
            final(self).last_instant() == now,
            r.0 as nat == counted_nanos(old(self).leftover(), nanos),
            r.1 as nat == updates_due(old(self).leftover(), old(self).period(), r.0 as nat),
            final(self).leftover() == leftover_after(
                old(self).leftover(),
                old(self).period(),
                r.0 as nat,
            ),
    {
        let room: u64 = u64::MAX - self.accumulated_time;
        let delta: u64 = if nanos > room as u128 {
            room
        } else {
            nanos as u64
        };
        self.last_update = now;
        let update_count = self.advance(delta);
        (delta, update_count)
    }
}

/// Division with remainder is unique.
proof fn lemma_div_mod_unique(n: nat, d: nat, q: nat, r: nat)
    requires
        d > 0,
        q * d + r == n,
        r < d,
    ensures
        n / d == q,
        n % d == r,
{
    vstd::arithmetic::div_mod::lemma_fundamental_div_mod_converse(n as int, d as int, q as int, r as int);
}

/// Over the first `k` ticks, the updates returned times the period plus what
/// is left in the bucket is the time measured plus what the bucket started with.
proof fn lemma_tick_prefix(states: Seq<GameLoop>, elapsed: Seq<nat>, counts: Seq<nat>, k: int)
    requires
        tick_run(states, elapsed, counts),
        0 <= k <= elapsed.len(),
    ensures
        states[k].period() == states[0].period(),
        states[k].leftover() < states[0].period(),
        sum_of(counts.subrange(0, k)) * states[0].period() + states[k].leftover() == states[0].leftover()
            + sum_of(elapsed.subrange(0, k)),
    decreases k,
{
    let p = states[0].period();
    if k == 0 {
        assert(counts.subrange(0, 0).len() == 0);
        assert(elapsed.subrange(0, 0).len() == 0);
        assert(sum_of(counts.subrange(0, 0)) == 0);
        assert(sum_of(elapsed.subrange(0, 0)) == 0);
        assert(0 * p == 0);
    } else {
        let j = k - 1;
        lemma_tick_prefix(states, elapsed, counts, j);
        assert(states[j + 1].period() == states[j].period());
        let n = states[j].leftover() + elapsed[j];
        vstd::arithmetic::div_mod::lemma_fundamental_div_mod(n as int, p as int);
        vstd::arithmetic::div_mod::lemma_mod_bound(n as int, p as int);
        assert(counts.subrange(0, k).drop_last() =~= counts.subrange(0, j));
        assert(elapsed.subrange(0, k).drop_last() =~= elapsed.subrange(0, j));
        let c = sum_of(counts.subrange(0, j));
        assert(sum_of(counts.subrange(0, k)) == c + counts[j]);
        assert(sum_of(elapsed.subrange(0, k)) == sum_of(elapsed.subrange(0, j)) + elapsed[j]);
        assert((c + counts[j]) * p == c * p + counts[j] * p) by (nonlinear_arith);
        assert(n == counts[j] * p + states[k].leftover()) by (nonlinear_arith)
            requires
                n == p * (n / p) + n % p,
                counts[j] == n / p,
                states[k].leftover() == n % p,
        ;
    }
}

/// A clock started fresh and ticked any number of times: after every tick, the
/// updates returned so far times the period never exceed the time measured so
/// far, and the bucket holds less than one period.
pub proof fn lemma_ticks_never_outrun_time(states: Seq<GameLoop>, elapsed: Seq<nat>, counts: Seq<nat>)
    requires
        tick_run(states, elapsed, counts),
        states[0].leftover() == 0,
    ensures
        forall|k: int|
            0 <= k <= elapsed.len() ==> #[trigger] sum_of(counts.subrange(0, k)) * states[0].period()
                <= sum_of(elapsed.subrange(0, k)),
        forall|k: int| 0 <= k <= elapsed.len() ==> #[trigger] states[k].leftover() < states[0].period(),
{
    assert forall|k: int|
        0 <= k <= elapsed.len() implies #[trigger] sum_of(counts.subrange(0, k)) * states[0].period()
            <= sum_of(elapsed.subrange(0, k)) by {
        lemma_tick_prefix(states, elapsed, counts, k);
    }
    assert forall|k: int| 0 <= k <= elapsed.len() implies #[trigger] states[k].leftover()
        < states[0].period() by {
        lemma_tick_prefix(states, elapsed, counts, k);
    }
}

} // verus!
