//! The stopwatch state machine.
//!
//! A [`TimerState`] tracks elapsed running time across pause, resume and
//! reset transitions. Time is measured in nanoseconds read from a monotonic
//! clock; a reading is a plain `u128` count of nanoseconds since some fixed
//! origin. The state holds the duration accumulated over earlier running
//! intervals plus the clock reading at which the current running interval
//! began, so the elapsed time at reading `now` is
//! `accumulated + (paused ? 0 : now - running_since)`.

use vstd::prelude::*;

verus! {

/// The stopwatch's state: whether it is paused, how much running time it has
/// accumulated over completed running intervals, and the clock reading at
/// which the current running interval began (meaningful only while running).
#[derive(Clone, Copy, Debug, PartialEq, Eq, Structural)]
pub struct TimerState {
    pub paused: bool,
    pub accumulated_nanos: u128,
    pub running_since_nanos: u128,
}

impl TimerState {
    /// Well-formedness with respect to a clock reading `now`: every stored
    /// reading lies in the past, and while running the accumulated time is no
    /// larger than the start of the current interval (both are bounded by the
    /// real time spent, which began at the origin of the clock).
    pub open spec fn inv_at(self, now: u128) -> bool {
        &&& self.running_since_nanos <= now
        &&& self.accumulated_nanos <= now
        &&& (!self.paused ==> self.accumulated_nanos <= self.running_since_nanos)
    }

    /// Total elapsed time at clock reading `now`: the accumulated duration,
    /// plus the live interval `now - running_since_nanos` when running.
    pub open spec fn elapsed_spec(self, now: u128) -> int {
        if self.paused {
            self.accumulated_nanos as int
        } else {
            self.accumulated_nanos + (now - self.running_since_nanos)
        }
    }

    /// Pausing at `now` freezes the live interval into the accumulated total.
    /// Pausing an already paused timer changes nothing.
    pub open spec fn pause_spec(self, now: u128) -> TimerState {
        if self.paused {
            self
        } else {
            TimerState {
                paused: true,
                accumulated_nanos: (self.accumulated_nanos + (now
                    - self.running_since_nanos)) as u128,
                running_since_nanos: self.running_since_nanos,
            }
        }
    }

    /// Resuming at `now` starts a new running interval at `now`. Resuming a
    /// timer that is already running changes nothing.
    pub open spec fn resume_spec(self, now: u128) -> TimerState {
        if self.paused {
            TimerState { paused: false, running_since_nanos: now, ..self }
        } else {
            self
        }
    }

    /// Toggling pauses a running timer and resumes a paused one: exactly one
    /// of the two transitions fires.
    pub open spec fn toggle_spec(self, now: u128) -> TimerState {
        if self.paused {
            self.resume_spec(now)
        } else {
            self.pause_spec(now)
        }
    }

    /// Resetting zeroes the accumulated time and rebases the running-since
    /// marker to `now`; the run/pause flag is untouched.
    pub open spec fn reset_spec(self, now: u128) -> TimerState {
        TimerState { accumulated_nanos: 0, running_since_nanos: now, ..self }
    }

    /// A freshly created timer at clock reading `now`: running, with nothing
    /// accumulated.
    pub fn init(now: u128) -> (t: TimerState)
        ensures
            t == (TimerState { paused: false, accumulated_nanos: 0, running_since_nanos: now }),
            t.inv_at(now),
            t.elapsed_spec(now) == 0,
    {
        TimerState { paused: false, accumulated_nanos: 0, running_since_nanos: now }
    }

    /// Query the elapsed time at clock reading `now` without mutating.
    pub fn elapsed_at(&self, now: u128) -> (e: u128)
        requires
            self.inv_at(now),
        ensures
            e == self.elapsed_spec(now),
    {
        if self.paused {
            self.accumulated_nanos
        } else {
            self.accumulated_nanos + (now - self.running_since_nanos)
        }
    }

    /// Pause at clock reading `now`.
    pub fn pause_at(&mut self, now: u128)
        requires
            old(self).inv_at(now),
        ensures
            *final(self) == old(self).pause_spec(now),
            final(self).inv_at(now),
    {
        if !self.paused {
            self.accumulated_nanos = self.accumulated_nanos + (now - self.running_since_nanos);
            self.paused = true;
        }
    }

    /// Resume at clock reading `now`.
    pub fn resume_at(&mut self, now: u128)
        requires
            old(self).inv_at(now),
        ensures
            *final(self) == old(self).resume_spec(now),
            final(self).inv_at(now),
    {
        if self.paused {
            self.running_since_nanos = now;
            self.paused = false;
        }
    }

    /// Toggle between running and paused at clock reading `now`.
    pub fn toggle_at(&mut self, now: u128)
        requires
            old(self).inv_at(now),
        ensures
            *final(self) == old(self).toggle_spec(now),
            final(self).inv_at(now),
    {
        if self.paused {
            self.resume_at(now);
        } else {
            self.pause_at(now);
        }
    }

    /// Reset at clock reading `now`.
    pub fn reset_at(&mut self, now: u128)
        requires
            old(self).inv_at(now),
        ensures
            *final(self) == old(self).reset_spec(now),
            final(self).inv_at(now),
            final(self).elapsed_spec(now) == 0,
    {
        self.accumulated_nanos = 0;
        self.running_since_nanos = now;
    }
}

/// Well-formedness only constrains the past: a state well formed at one
/// reading is well formed at every later reading.
pub proof fn lemma_inv_monotone(t: TimerState, n1: u128, n2: u128)
    requires
        t.inv_at(n1),
        n1 <= n2,
    ensures
        t.inv_at(n2),
{
}

/// The transitions other than reset.
#[derive(Clone, Copy, Debug, PartialEq, Eq, Structural)]
pub enum TimerOp {
    Pause,
    Resume,
    Toggle,
}

/// Apply one non-reset transition at clock reading `now`.
pub open spec fn apply_op(t: TimerState, op: TimerOp, now: u128) -> TimerState {
    match op {
        TimerOp::Pause => t.pause_spec(now),
        TimerOp::Resume => t.resume_spec(now),
        TimerOp::Toggle => t.toggle_spec(now),
    }
}

/// Apply a sequence of timestamped non-reset transitions in order.
pub open spec fn apply_ops(t: TimerState, ops: Seq<(TimerOp, u128)>) -> TimerState
    decreases ops.len(),
{
    if ops.len() == 0 {
        t
    } else {
        apply_ops(apply_op(t, ops[0].0, ops[0].1), ops.drop_first())
    }
}

/// The timestamps of `ops` all lie between `n0` and `nend` and never go
/// backwards, as readings of a monotonic clock do.
pub open spec fn times_ordered(ops: Seq<(TimerOp, u128)>, n0: u128, nend: u128) -> bool {
    &&& (forall|i: int| 0 <= i < ops.len() ==> n0 <= (#[trigger] ops[i]).1 <= nend)
    &&& (forall|i: int, j: int|
        0 <= i <= j < ops.len() ==> (#[trigger] ops[i]).1 <= (#[trigger] ops[j]).1)
}

/// While running, elapsed time only grows as the clock advances; while
/// paused it stands perfectly still.
pub proof fn lemma_elapsed_monotone_in_time(t: TimerState, n1: u128, n2: u128)
    requires
        t.inv_at(n1),
        n1 <= n2,
    ensures
        t.elapsed_spec(n1) <= t.elapsed_spec(n2),
        t.paused ==> t.elapsed_spec(n1) == t.elapsed_spec(n2),
{
}

/// Every non-reset transition preserves well-formedness.
pub proof fn lemma_op_preserves_inv(t: TimerState, op: TimerOp, now: u128)
    requires
        t.inv_at(now),
    ensures
        apply_op(t, op, now).inv_at(now),
{
}

/// At the instant it happens, a non-reset transition leaves the elapsed time
/// exactly as it was: no time is lost or gained by pausing, resuming or
/// toggling.
pub proof fn lemma_op_preserves_elapsed(t: TimerState, op: TimerOp, now: u128)
    requires
        t.inv_at(now),
    ensures
        apply_op(t, op, now).elapsed_spec(now) == t.elapsed_spec(now),
{
}

/// Monotonicity: over any sequence of pause, resume and toggle transitions —
/// no reset — taken at non-decreasing clock readings, the elapsed time never
/// decreases.
pub proof fn lemma_monotone_without_reset(
    t: TimerState,
    ops: Seq<(TimerOp, u128)>,
    n0: u128,
    nend: u128,
)
    requires
        t.inv_at(n0),
        times_ordered(ops, n0, nend),
        n0 <= nend,
    ensures
        apply_ops(t, ops).inv_at(nend),
        t.elapsed_spec(n0) <= apply_ops(t, ops).elapsed_spec(nend),
    decreases ops.len(),
{
    if ops.len() == 0 {
        lemma_inv_monotone(t, n0, nend);
        lemma_elapsed_monotone_in_time(t, n0, nend);
    } else {
        let op = ops[0].0;
        let t0 = ops[0].1;
        let stepped = apply_op(t, op, t0);
        lemma_inv_monotone(t, n0, t0);
        lemma_elapsed_monotone_in_time(t, n0, t0);
        lemma_op_preserves_inv(t, op, t0);
        lemma_op_preserves_elapsed(t, op, t0);
        let rest = ops.drop_first();
        assert forall|i: int| 0 <= i < rest.len() implies t0 <= (#[trigger] rest[i]).1 <= nend by {
            assert(rest[i] == ops[i + 1]);
            assert(ops[0].1 <= ops[i + 1].1);
        }
        assert forall|i: int, j: int|
            0 <= i <= j < rest.len() implies (#[trigger] rest[i]).1 <= (#[trigger] rest[j]).1 by {
            assert(rest[i] == ops[i + 1]);
            assert(rest[j] == ops[j + 1]);
            assert(ops[i + 1].1 <= ops[j + 1].1);
        }
        lemma_monotone_without_reset(stepped, rest, t0, nend);
    }
}

/// Pause/resume round trip: pausing and immediately resuming, both at the
/// same clock reading, leaves the elapsed time unchanged — at that reading,
/// and (when the timer was running) at every later reading too, so no time
/// is lost or gained by toggling quickly.
pub proof fn lemma_pause_resume_roundtrip(t: TimerState, now: u128, later: u128)
    requires
        t.inv_at(now),
        now <= later,
    ensures
        t.pause_spec(now).resume_spec(now).elapsed_spec(now) == t.elapsed_spec(now),
        !t.paused ==> t.pause_spec(now).resume_spec(now).elapsed_spec(later) == t.elapsed_spec(
            later,
        ),
{
}

/// Reset idempotence: a second reset leaves exactly the state the first one
/// left, and the elapsed time is zero immediately after either.
pub proof fn lemma_reset_idempotent(t: TimerState, n1: u128, n2: u128)
    ensures
        t.reset_spec(n1).reset_spec(n2) == t.reset_spec(n2),
        t.reset_spec(n1).elapsed_spec(n1) == 0,
{
}

/// Toggle is an involution: two toggles at the same clock reading restore
/// the run/pause flag, and the elapsed time — then and at every later
/// reading — is what it would have been without them.
pub proof fn lemma_toggle_involution(t: TimerState, now: u128, later: u128)
    requires
        t.inv_at(now),
        now <= later,
    ensures
        t.toggle_spec(now).toggle_spec(now).paused == t.paused,
        t.toggle_spec(now).toggle_spec(now).elapsed_spec(now) == t.elapsed_spec(now),
        t.toggle_spec(now).toggle_spec(now).elapsed_spec(later) == t.elapsed_spec(later),
{
}

} // verus!
