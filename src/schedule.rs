use vstd::prelude::*;
use vstd::arithmetic::div_mod::{lemma_fundamental_div_mod, lemma_mod_multiples_basic, lemma_mod_pos_bound};

verus! {

/// The first boundary of the grid `deadline + k * period` strictly after `now`, for a
/// tick due at `deadline` that fired at `now`: ticks missed meanwhile are skipped.
pub open spec fn next_boundary(deadline: int, period: int, now: int) -> int
    recommends
        period > 0,
        deadline <= now,
{
    now + period - (now - deadline) % period
}

/// Fires activations on a fixed grid of instants (milliseconds on a monotonic clock).
///
/// An activation that comes late does not queue the ones it overran: the next one is
/// due at the first grid instant after it.
pub struct PeriodicSchedule {
    period_ms: u64,
    next_ms: u64,
}

impl PeriodicSchedule {
    pub closed spec fn period(&self) -> int {
        self.period_ms as int
    }

    /// The instant at which the next activation is due.
    pub closed spec fn due(&self) -> int {
        self.next_ms as int
    }

    pub open spec fn wf(&self) -> bool {
        self.period() > 0
    }

    /// A schedule whose first activation is due at `start_ms`.
    pub fn new(start_ms: u64, period_ms: u64) -> (r: Self)
        requires
            period_ms > 0,
        ensures
            r.wf(),
            r.period() == period_ms,
            r.due() == start_ms,
    {
        PeriodicSchedule { period_ms, next_ms: start_ms }
    }

    /// Milliseconds between grid instants.
    pub fn period_ms(&self) -> (r: u64)
        ensures
            r == self.period(),
    {
        self.period_ms
    }

    /// The instant at which the next activation is due.
    pub fn next_due(&self) -> (r: u64)
        ensures
            r == self.due(),
    {
        self.next_ms
    }

    /// Milliseconds from `now_ms` until the next activation is due (0 when it is due).
    pub fn wait_ms(&self, now_ms: u64) -> (r: u64)
        ensures
            r == if self.due() > now_ms {
                self.due() - now_ms
            } else {
                0
            },
    {
        if self.next_ms > now_ms {
            self.next_ms - now_ms
        } else {
            0
        }
    }

    /// Fires when an activation is due at `now_ms`. Firing moves the due instant to
    /// the first grid instant after `now_ms`.
    pub fn poll(&mut self, now_ms: u64) -> (fired: bool)
        requires
            old(self).wf(),
            now_ms as int + old(self).period() <= u64::MAX,
        ensures
            final(self).wf(),
            final(self).period() == old(self).period(),
            fired == (now_ms >= old(self).due()),
            fired ==> final(self).due() == next_boundary(old(self).due(), old(self).period(), now_ms as int),
            !fired ==> final(self).due() == old(self).due(),
    {
        if now_ms >= self.next_ms {
            let late = (now_ms - self.next_ms) % self.period_ms;
            self.next_ms = now_ms + self.period_ms - late;
            true
        } else {
            false
        }
    }
}

/// However late a tick at `deadline` fired (at `now`), exactly one activation follows
/// at the next grid boundary: it lies after `now`, within one period of it and on
/// the grid, so no grid instant between `now` and it is fired.
pub proof fn lemma_single_activation_after_overrun(deadline: int, period: int, now: int)
    requires
        period > 0,
        deadline <= now,
    ensures
        now < next_boundary(deadline, period, now) <= now + period,
        next_boundary(deadline, period, now) - deadline >= period,
        (next_boundary(deadline, period, now) - deadline) % period == 0,
        forall|k: int|
            now < #[trigger] (deadline + k * period) ==> next_boundary(deadline, period, now)
                <= deadline + k * period,
{
    let x = now - deadline;
    lemma_mod_pos_bound(x, period);
    lemma_fundamental_div_mod(x, period);
    let q = x / period;
    assert(next_boundary(deadline, period, now) - deadline == period * (q + 1)) by (nonlinear_arith)
        requires
            x == period * q + x % period,
            next_boundary(deadline, period, now) == now + period - x % period,
            x == now - deadline,
    ;
    assert(q >= 0) by {
        vstd::arithmetic::div_mod::lemma_div_pos_is_pos(x, period);
    }
    assert(period * (q + 1) >= period) by (nonlinear_arith)
        requires
            q >= 0,
            period > 0,
    ;
    lemma_mod_multiples_basic(q + 1, period);
    assert(period * (q + 1) == (q + 1) * period) by (nonlinear_arith);
    assert forall|k: int| now < #[trigger] (deadline + k * period) implies next_boundary(
        deadline,
        period,
        now,
    ) <= deadline + k * period by {
        assert(k > q) by (nonlinear_arith)
            requires
                now < deadline + k * period,
                x == period * q + x % period,
                x % period >= 0,
                x == now - deadline,
                period > 0,
        ;
        assert(period * (q + 1) <= k * period) by (nonlinear_arith)
            requires
                k >= q + 1,
                period > 0,
        ;
    }
}

/// Polls at the instants `times`, in order, on a schedule whose first activation is
/// due at `due`: the number of activations fired and the instant due afterwards,
/// as `PeriodicSchedule::poll` states them.
pub open spec fn run_polls(due: int, period: int, times: Seq<int>) -> (int, int)
    decreases times.len(),
{
    if times.len() == 0 {
        (0, due)
    } else {
        let (fired, d) = run_polls(due, period, times.drop_last());
        if times.last() >= d {
            (fired + 1, next_boundary(d, period, times.last()))
        } else {
            (fired, d)
        }
    }
}

proof fn lemma_run_polls_bound(start: int, period: int, times: Seq<int>)
    requires
        period > 0,
        forall|i: int, j: int| 0 <= i <= j < times.len() ==> times[i] <= times[j],
    ensures
        run_polls(start, period, times).0 >= 0,
        run_polls(start, period, times).0 * period <= run_polls(start, period, times).1 - start,
        run_polls(start, period, times).0 >= 1 ==> run_polls(start, period, times).1 <= times.last()
            + period,
    decreases times.len(),
{
    if times.len() > 0 {
        let rest = times.drop_last();
        lemma_run_polls_bound(start, period, rest);
        let (c, d) = run_polls(start, period, rest);
        let t = times.last();
        if rest.len() > 0 {
            assert(rest.last() == times[times.len() - 2]);
            assert(rest.last() <= t);
        }
        if t >= d {
            lemma_single_activation_after_overrun(d, period, t);
            assert((c + 1) * period == c * period + period) by (nonlinear_arith);
        }
    }
}

/// Over any run of polls on a monotonic clock, the activations fired by the last
/// poll, at `t`, are at most one per grid boundary up to `t`: no more than
/// `(t - start) / period + 1`, however long each cycle took.
pub proof fn lemma_activations_bounded(start: int, period: int, times: Seq<int>)
    requires
        period > 0,
        times.len() > 0,
        start <= times[0],
        forall|i: int, j: int| 0 <= i <= j < times.len() ==> times[i] <= times[j],
    ensures
        run_polls(start, period, times).0 <= (times.last() - start) / period + 1,
{
    lemma_run_polls_bound(start, period, times);
    let (c, d) = run_polls(start, period, times);
    let x = times.last() - start;
    assert(x >= 0);
    if c >= 1 {
        lemma_fundamental_div_mod(x, period);
        lemma_mod_pos_bound(x, period);
        assert(c <= x / period + 1) by (nonlinear_arith)
            requires
                c * period <= x + period,
                x == period * (x / period) + x % period,
                x % period >= 0,
                period > 0,
        ;
    } else {
        vstd::arithmetic::div_mod::lemma_div_pos_is_pos(x, period);
    }
}

} // verus!
