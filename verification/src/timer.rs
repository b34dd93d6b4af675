//! The timer state machine: one countdown, two phases (work and break),
//! driven by commands and by a periodic tick.
//!
//! All wall-clock readings enter through the `now` parameters, taken as
//! milliseconds on a monotonic clock; the engine itself never reads a clock,
//! so every transition is a pure function of the state and the instant at
//! which it happens.

use vstd::prelude::*;

verus! {

use vstd::arithmetic::div_mod::lemma_fundamental_div_mod;
use vstd::arithmetic::div_mod::lemma_mod_multiples_basic;
use vstd::arithmetic::mul::lemma_mul_inequality;

/// Milliseconds in one second.
pub const MS_PER_SECOND: u64 = 1000;
/// Milliseconds in one minute.
pub const MS_PER_MINUTE: u64 = 60_000;
/// Seconds in one minute.
pub const SECONDS_PER_MINUTE: u64 = 60;
/// Default full length of a work phase, in minutes.
pub const DEFAULT_WORK_MINUTES: u64 = 25;
/// Default full length of a break phase, in minutes.
pub const DEFAULT_BREAK_MINUTES: u64 = 5;
/// Minimum spacing between two progress notifications, in milliseconds.
pub const EMIT_INTERVAL_MS: u64 = 1000;
/// Largest minute count whose millisecond equivalent still fits in `u64`.
pub const MAX_MINUTES: u64 = u64::MAX / MS_PER_MINUTE;

/// The whole engine state: a single timer, alternating between a work phase
/// and a break phase.
pub struct TimerState {
    /// Monotonic-clock instant (milliseconds) at which the current countdown
    /// was last (re)started; `None` while paused or idle.
    pub start_time: Option<u64>,
    /// Remaining countdown span (milliseconds) for the current phase as of
    /// the moment it was last (re)started; rewritten to the remaining time on
    /// every pause.
    pub duration: u64,
    /// True exactly while a countdown is active (and a polling loop runs).
    pub is_running: bool,
    /// Phase discriminant: true in the work phase, false in the break phase.
    pub is_work_period: bool,
    /// Configured full length of the work phase, in milliseconds.
    pub work_duration: u64,
    /// Configured full length of the break phase, in milliseconds.
    pub break_duration: u64,
    /// Count of completed work phases; grows only on the work-to-break edge.
    pub completed_pomodoros: u64,
}

/// A notification owed to the observer of the timer, in the order the engine
/// hands them out.
#[derive(Clone, Copy, Debug, PartialEq, Eq, Structural)]
pub enum TimerEvent {
    /// Progress: the remaining seconds of the current countdown.
    TimerUpdate(u64),
    /// The current countdown has reached zero.
    PeriodComplete,
    /// A work phase just ended; carries the new completion count.
    PomodoroCompleted(u64),
    /// The phase flipped; carries the new phase discriminant.
    PeriodChanged(bool),
}

/// What one poll of the ticking loop decided.
pub struct TickOutcome {
    /// Notifications due now, in emission order.
    pub events: Vec<TimerEvent>,
    /// The countdown reached zero on this poll: the caller should flip the
    /// phase (`switch_period`) after emitting `events`.
    pub completed: bool,
    /// Polling should end after this poll, either because the countdown
    /// completed or because an external pause or reset stopped the timer.
    pub stop: bool,
}

/// Snapshot of the engine state as surfaced to the UI.
#[derive(Clone, Copy, Debug, PartialEq, Eq, Structural)]
pub struct TimerStateResponse {
    pub is_running: bool,
    pub is_work_period: bool,
    pub remaining_seconds: u64,
    pub work_duration_minutes: u64,
    pub break_duration_minutes: u64,
    pub completed_pomodoros: u64,
}

impl TimerState {
    /// Validity of a timer state: the running flag and the recorded start
    /// instant agree, and the configured phase lengths are whole minutes
    /// (they are only ever written from minute counts).
    pub open spec fn wf(self) -> bool {
        &&& (self.is_running <==> self.start_time is Some)
        &&& self.work_duration % MS_PER_MINUTE == 0
        &&& self.break_duration % MS_PER_MINUTE == 0
    }

    /// The state every engine begins in: idle, work phase, 25 minutes of
    /// work, 5 minutes of break, nothing completed.
    pub open spec fn initial() -> TimerState {
        TimerState {
            start_time: None,
            duration: (DEFAULT_WORK_MINUTES * MS_PER_MINUTE) as u64,
            is_running: false,
            is_work_period: true,
            work_duration: (DEFAULT_WORK_MINUTES * MS_PER_MINUTE) as u64,
            break_duration: (DEFAULT_BREAK_MINUTES * MS_PER_MINUTE) as u64,
            completed_pomodoros: 0,
        }
    }

    /// Remaining countdown time in milliseconds at instant `now`: the stored
    /// span less the time elapsed since the recorded start, floored at zero;
    /// the stored span itself while no start is recorded.
    pub open spec fn remaining_ms(self, now: u64) -> u64 {
        match self.start_time {
            Some(t) => if now - t < self.duration {
                (self.duration - (now - t)) as u64
            } else {
                0u64
            },
            None => self.duration,
        }
    }

    /// The state after `start_timer` at instant `now`: a no-op while already
    /// running, otherwise the countdown begins at `now`.
    pub open spec fn started(self, now: u64) -> TimerState {
        if self.is_running {
            self
        } else {
            TimerState { start_time: Some(now), is_running: true, ..self }
        }
    }

    /// The state after `pause_timer` at instant `now`: the remaining time is
    /// written back as the new stored span and the countdown stops; a no-op
    /// unless a countdown is active.
    pub open spec fn paused(self, now: u64) -> TimerState {
        if self.is_running && self.start_time is Some {
            TimerState {
                start_time: None,
                duration: self.remaining_ms(now),
                is_running: false,
                ..self
            }
        } else {
            self
        }
    }

    /// The state after `reset_timer`: idle, in the requested phase, with that
    /// phase's full configured length; the completion count is untouched.
    pub open spec fn reset_to(self, to_work_period: bool) -> TimerState {
        TimerState {
            start_time: None,
            is_running: false,
            is_work_period: to_work_period,
            duration: if to_work_period {
                self.work_duration
            } else {
                self.break_duration
            },
            ..self
        }
    }

    /// The state after `switch_period`: the phase flips, the completion count
    /// grows by one exactly on the work-to-break edge, the new phase's full
    /// configured length is loaded, and the countdown stops.
    pub open spec fn switched(self) -> TimerState {
        let work_now = !self.is_work_period;
        TimerState {
            start_time: None,
            is_running: false,
            is_work_period: work_now,
            completed_pomodoros: if !work_now {
                (self.completed_pomodoros + 1) as u64
            } else {
                self.completed_pomodoros
            },
            duration: if work_now {
                self.work_duration
            } else {
                self.break_duration
            },
            ..self
        }
    }

    /// The notifications `switch_period` owes the observer: the new
    /// completion count first when a work phase just ended, then the new
    /// phase discriminant.
    pub open spec fn switch_events(self) -> Seq<TimerEvent> {
        if self.is_work_period {
            seq![
                TimerEvent::PomodoroCompleted((self.completed_pomodoros + 1) as u64),
                TimerEvent::PeriodChanged(false),
            ]
        } else {
            seq![TimerEvent::PeriodChanged(true)]
        }
    }

    /// The state after `update_settings`: both configured lengths are
    /// overwritten from the given minute counts, and an idle timer reloads
    /// the active phase's new length at once, while a running countdown is
    /// left undisturbed.
    pub open spec fn with_settings(self, work_minutes: u64, break_minutes: u64) -> TimerState {
        let wd = (work_minutes * MS_PER_MINUTE) as u64;
        let bd = (break_minutes * MS_PER_MINUTE) as u64;
        TimerState {
            work_duration: wd,
            break_duration: bd,
            duration: if !self.is_running {
                if self.is_work_period {
                    wd
                } else {
                    bd
                }
            } else {
                self.duration
            },
            ..self
        }
    }

    /// The snapshot `get_timer_state` returns at instant `now`.
    pub open spec fn response(self, now: u64) -> TimerStateResponse {
        TimerStateResponse {
            is_running: self.is_running,
            is_work_period: self.is_work_period,
            remaining_seconds: self.remaining_ms(now) / MS_PER_SECOND,
            work_duration_minutes: self.work_duration / MS_PER_SECOND / SECONDS_PER_MINUTE,
            break_duration_minutes: self.break_duration / MS_PER_SECOND / SECONDS_PER_MINUTE,
            completed_pomodoros: self.completed_pomodoros,
        }
    }

    /// A poll at instant `now` is due to notify: at least the emission
    /// interval has passed since the last notification.
    pub open spec fn tick_due(now: u64, last_emit: u64) -> bool {
        now - last_emit >= EMIT_INTERVAL_MS
    }

    /// The countdown has expired at instant `now`: the time elapsed since
    /// the recorded start reaches the stored span.
    pub open spec fn tick_expired(self, now: u64) -> bool {
        self.start_time matches Some(t) && now - t >= self.duration
    }

    /// The notifications one poll of the ticking loop owes at instant `now`:
    /// nothing while stopped or before the next notification is due; on
    /// expiry a final zero-seconds progress report followed by the completion
    /// report; otherwise one progress report with the remaining seconds.
    pub open spec fn tick_events(self, now: u64, last_emit: u64) -> Seq<TimerEvent> {
        if !self.is_running || !TimerState::tick_due(now, last_emit) {
            Seq::empty()
        } else if self.tick_expired(now) {
            seq![TimerEvent::TimerUpdate(0), TimerEvent::PeriodComplete]
        } else {
            seq![TimerEvent::TimerUpdate(self.remaining_ms(now) / MS_PER_SECOND)]
        }
    }
}

impl TimerState {
    /// Start the countdown at instant `now`. A no-op while already running;
    /// the result says whether a ticking loop must be launched for this
    /// start (never while one is already active, so loops are never
    /// duplicated).
    pub fn start_timer(&mut self, now: u64) -> (spawn_loop: bool)
        ensures
            *final(self) == old(self).started(now),
            spawn_loop == !old(self).is_running,
            old(self).wf() ==> final(self).wf(),
    {
        if !self.is_running {
            self.start_time = Some(now);
            self.is_running = true;
            true
        } else {
            false
        }
    }

    /// Pause the countdown at instant `now`: the remaining time becomes the
    /// new stored span, floored at zero, and the timer stops. A no-op unless
    /// a countdown is active.
    pub fn pause_timer(&mut self, now: u64)
        requires
            old(self).start_time matches Some(t) ==> t <= now,
        ensures
            *final(self) == old(self).paused(now),
            old(self).wf() ==> final(self).wf(),
    {
        if self.is_running {
            if let Some(start_time) = self.start_time {
                let elapsed = now - start_time;
                if elapsed < self.duration {
                    self.duration = self.duration - elapsed;
                } else {
                    self.duration = 0;
                }
                self.start_time = None;
                self.is_running = false;
            }
        }
    }

    /// Force the timer back to idle in the requested phase, with that
    /// phase's full configured length; the completion count is untouched.
    pub fn reset_timer(&mut self, to_work_period: bool)
        ensures
            *final(self) == old(self).reset_to(to_work_period),
            old(self).wf() ==> final(self).wf(),
    {
        self.start_time = None;
        self.is_running = false;
        self.is_work_period = to_work_period;
        self.duration = if to_work_period {
            self.work_duration
        } else {
            self.break_duration
        };
    }

    /// Flip the phase: on a work-to-break edge the completion count grows by
    /// one, the new phase's full configured length is loaded, and the
    /// countdown stops. Returns the notifications owed to the observer, in
    /// emission order.
    pub fn switch_period(&mut self) -> (events: Vec<TimerEvent>)
        requires
            old(self).is_work_period ==> old(self).completed_pomodoros < u64::MAX,
        ensures
            *final(self) == old(self).switched(),
            events@ == old(self).switch_events(),
            old(self).wf() ==> final(self).wf(),
    {
        self.is_work_period = !self.is_work_period;

        let mut events: Vec<TimerEvent> = Vec::new();
        if !self.is_work_period {
            self.completed_pomodoros = self.completed_pomodoros + 1;
            events.push(TimerEvent::PomodoroCompleted(self.completed_pomodoros));
        }

        self.duration = if self.is_work_period {
            self.work_duration
        } else {
            self.break_duration
        };
        self.start_time = None;
        self.is_running = false;

        events.push(TimerEvent::PeriodChanged(self.is_work_period));
        proof {
            assert(events@ =~= old(self).switch_events());
        }
        events
    }

    /// Overwrite both configured phase lengths from minute counts. An idle
    /// timer reloads the active phase's new length at once; a running
    /// countdown is left undisturbed.
    pub fn update_settings(&mut self, work_minutes: u64, break_minutes: u64)
        requires
            work_minutes <= MAX_MINUTES,
            break_minutes <= MAX_MINUTES,
        ensures
            *final(self) == old(self).with_settings(work_minutes, break_minutes),
            old(self).wf() ==> final(self).wf(),
    {
        proof {
            lemma_mod_multiples_basic(work_minutes as int, MS_PER_MINUTE as int);
            lemma_mod_multiples_basic(break_minutes as int, MS_PER_MINUTE as int);
            lemma_mul_inequality(work_minutes as int, MAX_MINUTES as int, MS_PER_MINUTE as int);
            lemma_mul_inequality(break_minutes as int, MAX_MINUTES as int, MS_PER_MINUTE as int);
            lemma_fundamental_div_mod(u64::MAX as int, MS_PER_MINUTE as int);
        }
        self.work_duration = work_minutes * MS_PER_MINUTE;
        self.break_duration = break_minutes * MS_PER_MINUTE;

        if !self.is_running {
            self.duration = if self.is_work_period {
                self.work_duration
            } else {
                self.break_duration
            };
        }
    }

    /// Snapshot the state at instant `now` for the UI: the running and phase
    /// flags, the remaining seconds of the countdown, the configured lengths
    /// in minutes, and the completion count. Never mutates.
    pub fn get_timer_state(&self, now: u64) -> (r: TimerStateResponse)
        requires
            self.start_time matches Some(t) ==> t <= now,
        ensures
            r == self.response(now),
    {
        let remaining_ms = if let Some(start_time) = self.start_time {
            let elapsed = now - start_time;
            if elapsed < self.duration {
                self.duration - elapsed
            } else {
                0
            }
        } else {
            self.duration
        };

        TimerStateResponse {
            is_running: self.is_running,
            is_work_period: self.is_work_period,
            remaining_seconds: remaining_ms / MS_PER_SECOND,
            work_duration_minutes: self.work_duration / MS_PER_SECOND / SECONDS_PER_MINUTE,
            break_duration_minutes: self.break_duration / MS_PER_SECOND / SECONDS_PER_MINUTE,
            completed_pomodoros: self.completed_pomodoros,
        }
    }

    /// One poll of the ticking loop at instant `now`, where `last_emit` is
    /// the instant of the previous notification (or of the loop's launch).
    /// Decides which notifications are due, whether the countdown just
    /// completed, and whether polling should end; the caller emits the
    /// events, then on completion flips the phase with `switch_period`.
    pub fn plan_tick(&self, now: u64, last_emit: u64) -> (outcome: TickOutcome)
        requires
            self.wf(),
            self.start_time matches Some(t) ==> t <= now,
            last_emit <= now,
        ensures
            outcome.events@ == self.tick_events(now, last_emit),
            outcome.completed == (self.is_running && TimerState::tick_due(now, last_emit)
                && self.tick_expired(now)),
            outcome.stop == (!self.is_running || outcome.completed),
    {
        if !self.is_running {
            return TickOutcome { events: Vec::new(), completed: false, stop: true };
        }
        if now - last_emit < EMIT_INTERVAL_MS {
            return TickOutcome { events: Vec::new(), completed: false, stop: false };
        }
        if let Some(start_time) = self.start_time {
            let elapsed = now - start_time;
            if elapsed >= self.duration {
                let events = vec![TimerEvent::TimerUpdate(0), TimerEvent::PeriodComplete];
                proof {
                    assert(events@ =~= self.tick_events(now, last_emit));
                }
                TickOutcome { events, completed: true, stop: true }
            } else {
                let remaining = self.duration - elapsed;
                let events = vec![TimerEvent::TimerUpdate(remaining / MS_PER_SECOND)];
                proof {
                    assert(events@ =~= self.tick_events(now, last_emit));
                }
                TickOutcome { events, completed: false, stop: false }
            }
        } else {
            // A well-formed running timer always records its start.
            proof {
                assert(false);
            }
            TickOutcome { events: Vec::new(), completed: false, stop: false }
        }
    }
}

impl Default for TimerState {
    /// The initial engine state.
    fn default() -> (s: Self)
        ensures
            s == TimerState::initial(),
            s.wf(),
    {
        TimerState {
            start_time: None,
            duration: DEFAULT_WORK_MINUTES * MS_PER_MINUTE,
            is_running: false,
            is_work_period: true,
            work_duration: DEFAULT_WORK_MINUTES * MS_PER_MINUTE,
            break_duration: DEFAULT_BREAK_MINUTES * MS_PER_MINUTE,
            completed_pomodoros: 0,
        }
    }
}

} // verus!
