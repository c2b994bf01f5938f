//! The stopwatch itself: a [`TimerState`] driven by the monotonic clock.
//!
//! An [`App`] owns the clock origin and remembers the largest clock reading
//! it has acted on, so that every reading it hands to the state machine is
//! non-decreasing. All state changes go through the verified transitions of
//! [`TimerState`]; only the clock readings come from outside.

use vstd::prelude::*;

use crate::clock;
use crate::input;
use crate::input::Command;
use crate::input::InputEvent;
use crate::timer::TimerState;
use crate::timer::lemma_inv_monotone;

verus! {

/// The stopwatch: the timer state machine, the quit flag the event loop
/// polls, the clock origin, and the largest clock reading acted on so far
/// (all readings are nanoseconds since the origin).
#[derive(Debug)]
pub struct App {
    pub should_quit: bool,
    pub timer: TimerState,
    pub last_now: u128,
    pub origin: tokio::time::Instant,
}

/// How one input event changes the quit flag and the timer, given the clock
/// reading `now` at which it is handled: quit sets the flag, toggle and
/// reset step the timer, everything else changes nothing.
pub open spec fn spec_handle_event(quit: bool, t: TimerState, event: InputEvent, now: u128) -> (
    bool,
    TimerState,
) {
    match input::spec_command_of(event) {
        Command::Quit => (true, t),
        Command::Toggle => (quit, t.toggle_spec(now)),
        Command::Reset => (quit, t.reset_spec(now)),
        Command::Ignore => (quit, t),
    }
}

impl App {
    /// The timer state is well formed with respect to the last reading
    /// acted on.
    pub open spec fn wf(self) -> bool {
        self.timer.inv_at(self.last_now)
    }

    /// A clock reading to act on: at least as large as every reading acted
    /// on before, so the state machine only ever sees time moving forward.
    fn clock_reading(&self) -> (now: u128)
        ensures
            now >= self.last_now,
    {
        let raw = clock::nanos_since(&self.origin);
        if raw >= self.last_now {
            raw
        } else {
            self.last_now
        }
    }

    /// A fresh stopwatch: running, nothing accumulated, quit flag clear.
    pub fn new() -> (app: App)
        ensures
            app.wf(),
            !app.should_quit,
            !app.timer.paused,
            app.timer.accumulated_nanos == 0,
            app.timer.running_since_nanos == 0,
            app.last_now == 0,
    {
        App {
            should_quit: false,
            timer: TimerState::init(0),
            last_now: 0,
            origin: clock::instant_now(),
        }
    }

    /// Zero the elapsed time and rebase the running interval at the current
    /// clock reading; the run/pause flag is untouched, so a stopwatch reset
    /// while paused shows zero until it is resumed.
    pub fn reset(&mut self)
        requires
            old(self).wf(),
        ensures
            final(self).wf(),
            final(self).last_now >= old(self).last_now,
            final(self).timer == old(self).timer.reset_spec(final(self).last_now),
            final(self).should_quit == old(self).should_quit,
            final(self).timer.elapsed_spec(final(self).last_now) == 0,
    {
        let now = self.clock_reading();
        proof {
            lemma_inv_monotone(self.timer, self.last_now, now);
        }
        self.last_now = now;
        self.timer.reset_at(now);
    }

    /// Freeze the live running interval into the accumulated total; a no-op
    /// when already paused.
    pub fn pause_timer(&mut self)
        requires
            old(self).wf(),
        ensures
            final(self).wf(),
            final(self).last_now >= old(self).last_now,
            final(self).timer == old(self).timer.pause_spec(final(self).last_now),
            final(self).should_quit == old(self).should_quit,
            final(self).timer.paused,
    {
        let now = self.clock_reading();
        proof {
            lemma_inv_monotone(self.timer, self.last_now, now);
        }
        self.last_now = now;
        self.timer.pause_at(now);
    }

    /// Start a new running interval at the current clock reading; a no-op
    /// when already running.
    pub fn unpause_timer(&mut self)
        requires
            old(self).wf(),
        ensures
            final(self).wf(),
            final(self).last_now >= old(self).last_now,
            final(self).timer == old(self).timer.resume_spec(final(self).last_now),
            final(self).should_quit == old(self).should_quit,
            !final(self).timer.paused,
    {
        let now = self.clock_reading();
        proof {
            lemma_inv_monotone(self.timer, self.last_now, now);
        }
        self.last_now = now;
        self.timer.resume_at(now);
    }

    /// Pause a running stopwatch, resume a paused one: exactly one of the
    /// two fires per call.
    pub fn toggle_timer(&mut self)
        requires
            old(self).wf(),
        ensures
            final(self).wf(),
            final(self).last_now >= old(self).last_now,
            final(self).timer == old(self).timer.toggle_spec(final(self).last_now),
            final(self).should_quit == old(self).should_quit,
            final(self).timer.paused == !old(self).timer.paused,
    {
        let now = self.clock_reading();
        proof {
            lemma_inv_monotone(self.timer, self.last_now, now);
        }
        self.last_now = now;
        self.timer.toggle_at(now);
    }

    /// The elapsed time in nanoseconds at a fresh clock reading: a pure
    /// query, no state changes.
    pub fn get_current_timer(&self) -> (e: u128)
        requires
            self.wf(),
        ensures
            exists|now: u128| now >= self.last_now && e == self.timer.elapsed_spec(now),
            self.timer.paused ==> e == self.timer.accumulated_nanos,
    {
        let now = self.clock_reading();
        proof {
            lemma_inv_monotone(self.timer, self.last_now, now);
        }
        let e = self.timer.elapsed_at(now);
        proof {
            assert(now >= self.last_now && e == self.timer.elapsed_spec(now));
        }
        e
    }

    /// The `MM:SS` field of the current elapsed time.
    pub fn display_seconds(&self) -> (s: String)
        requires
            self.wf(),
        ensures
            exists|now: u128|
                now >= self.last_now && s@ == crate::format::spec_minutes_seconds(
                    self.timer.elapsed_spec(now) as u128,
                ),
    {
        let e = self.get_current_timer();
        let s = crate::format::format_minutes_seconds(e);
        proof {
            let now = choose|n: u128| n >= self.last_now && e == self.timer.elapsed_spec(n);
            assert(now >= self.last_now && s@ == crate::format::spec_minutes_seconds(
                self.timer.elapsed_spec(now) as u128,
            ));
        }
        s
    }

    /// The `:mmm` field of the current elapsed time.
    pub fn display_millis(&self) -> (s: String)
        requires
            self.wf(),
        ensures
            exists|now: u128|
                now >= self.last_now && s@ == crate::format::spec_millis_field(
                    self.timer.elapsed_spec(now) as u128,
                ),
    {
        let e = self.get_current_timer();
        let s = crate::format::format_millis_field(e);
        proof {
            let now = choose|n: u128| n >= self.last_now && e == self.timer.elapsed_spec(n);
            assert(now >= self.last_now && s@ == crate::format::spec_millis_field(
                self.timer.elapsed_spec(now) as u128,
            ));
        }
        s
    }

    /// Handle one terminal event: quit on `q` or `Escape` pressed, toggle on
    /// `Space` pressed, reset on `r` pressed; key releases, key repeats and
    /// every other event leave the stopwatch exactly as it was.
    pub fn handle_event(&mut self, event: &InputEvent)
        requires
            old(self).wf(),
        ensures
            final(self).wf(),
            final(self).last_now >= old(self).last_now,
            (final(self).should_quit, final(self).timer) == spec_handle_event(
                old(self).should_quit,
                old(self).timer,
                *event,
                final(self).last_now,
            ),
            input::spec_command_of(*event) == Command::Quit ==> final(self).should_quit,
            input::spec_command_of(*event) == Command::Ignore ==> *final(self) == *old(self),
    {
        match input::command_of(event) {
            Command::Quit => {
                self.should_quit = true;
            },
            Command::Toggle => {
                self.toggle_timer();
            },
            Command::Reset => {
                self.reset();
            },
            Command::Ignore => {
            },
        }
    }
}

/// Handling an event whose command is `Ignore` — in particular any key
/// release or repeat — changes neither the quit flag nor the timer.
pub proof fn lemma_ignored_event_is_noop(quit: bool, t: TimerState, event: InputEvent, now: u128)
    requires
        input::spec_command_of(event) == Command::Ignore,
    ensures
        spec_handle_event(quit, t, event, now) == (quit, t),
{
}

/// Handling a `q` key press sets the quit flag and leaves the timer alone,
/// whatever the rest of the state is.
pub proof fn lemma_quit_event_sets_flag(quit: bool, t: TimerState, now: u128)
    ensures
        input::spec_command_of(
            InputEvent::Key { code: input::KeyCode::Char('q'), kind: input::KeyKind::Press },
        ) == Command::Quit,
        spec_handle_event(
            quit,
            t,
            InputEvent::Key { code: input::KeyCode::Char('q'), kind: input::KeyKind::Press },
            now,
        ) == (true, t),
{
}

} // verus!
