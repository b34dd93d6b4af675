//! The engine's global guarantees, each proved from the transition
//! functions that the command contracts are stated over.

use vstd::prelude::*;

verus! {

use crate::timer::TimerState;
use crate::timer::TimerEvent;
use crate::timer::EMIT_INTERVAL_MS;
use crate::timer::MAX_MINUTES;
use crate::timer::MS_PER_MINUTE;
use crate::timer::MS_PER_SECOND;
use crate::timer::SECONDS_PER_MINUTE;
use vstd::arithmetic::div_mod::lemma_fundamental_div_mod;
use vstd::arithmetic::div_mod::lemma_div_multiples_vanish;

/// Starting is idempotent: a second `start` with no intervening pause or
/// reset leaves the state exactly as the first start left it, whatever the
/// two instants were.
pub proof fn lemma_start_idempotent(s: TimerState, now1: u64, now2: u64)
    ensures
        s.started(now1).started(now2) == s.started(now1),
{
}

/// A pause conserves the countdown: pausing at `t_pause` and resuming at
/// any later instant `t_resume` leaves, right after the resume, exactly the
/// remaining time the timer had at the moment of the pause — never the full
/// configured length.
pub proof fn lemma_pause_resume_conserves(s: TimerState, t_pause: u64, t_resume: u64)
    requires
        s.is_running,
        s.start_time matches Some(t) && t <= t_pause,
    ensures
        s.paused(t_pause).started(t_resume).remaining_ms(t_resume) == s.remaining_ms(t_pause),
{
}

/// Completing a work countdown flips the phase to break and increments the
/// pomodoro count by one; completing the following break countdown flips
/// back to work and leaves the count unchanged.
pub proof fn lemma_phase_toggle(s: TimerState)
    requires
        s.is_work_period,
        s.completed_pomodoros < u64::MAX,
    ensures
        !s.switched().is_work_period,
        s.switched().completed_pomodoros == s.completed_pomodoros + 1,
        s.switched().switched().is_work_period,
        s.switched().switched().completed_pomodoros == s.completed_pomodoros + 1,
{
}

/// A reset to the work phase always lands idle, in the work phase, with the
/// full configured work length remaining — the snapshot's remaining seconds
/// equal its configured work minutes times sixty — regardless of the prior
/// state.
pub proof fn lemma_reset_correct(s: TimerState, now: u64)
    requires
        s.wf(),
    ensures
        !s.reset_to(true).is_running,
        s.reset_to(true).is_work_period,
        s.reset_to(true).response(now).remaining_seconds
            == s.response(now).work_duration_minutes * SECONDS_PER_MINUTE,
{
    let wd = s.work_duration as int;
    let k = wd / (MS_PER_MINUTE as int);
    lemma_fundamental_div_mod(wd, MS_PER_MINUTE as int);
    assert(wd == MS_PER_MINUTE * k);
    assert(wd == MS_PER_SECOND * (SECONDS_PER_MINUTE * k));
    lemma_div_multiples_vanish(SECONDS_PER_MINUTE * k, MS_PER_SECOND as int);
    assert(wd / (MS_PER_SECOND as int) == SECONDS_PER_MINUTE * k);
    lemma_div_multiples_vanish(k, SECONDS_PER_MINUTE as int);
    assert(wd / (MS_PER_SECOND as int) / (SECONDS_PER_MINUTE as int) == k);
}

/// Changing the configured lengths while the timer runs does not alter the
/// countdown in progress at any instant; changing them while idle at once
/// reloads the active phase's new full length.
pub proof fn lemma_settings_isolation(s: TimerState, work_minutes: u64, break_minutes: u64, now: u64)
    requires
        s.wf(),
        work_minutes <= MAX_MINUTES,
        break_minutes <= MAX_MINUTES,
    ensures
        s.is_running ==> s.with_settings(work_minutes, break_minutes).remaining_ms(now)
            == s.remaining_ms(now),
        !s.is_running ==> s.with_settings(work_minutes, break_minutes).remaining_ms(now)
            == (if s.is_work_period {
                work_minutes * MS_PER_MINUTE
            } else {
                break_minutes * MS_PER_MINUTE
            }),
{
}

/// The remaining time of a running countdown is never negative, never
/// exceeds the stored span, and is exactly zero once — and only once — the
/// stored span has elapsed since the start.
pub proof fn lemma_remaining_bounds(s: TimerState, now: u64)
    requires
        s.wf(),
        s.is_running,
        s.start_time matches Some(t) && t <= now,
    ensures
        s.remaining_ms(now) >= 0,
        s.remaining_ms(now) <= s.duration,
        (s.remaining_ms(now) == 0) <==> now >= s.start_time->0 + s.duration,
{
}

/// Once the stored span has elapsed, the first due poll reports a final
/// zero-seconds progress update followed by the completion notification, in
/// that order and nothing else.
pub proof fn lemma_tick_completes(s: TimerState, now: u64, last_emit: u64)
    requires
        s.wf(),
        s.is_running,
        s.start_time matches Some(t) && t + s.duration <= now,
        now - last_emit >= EMIT_INTERVAL_MS,
    ensures
        s.tick_expired(now),
        s.tick_events(now, last_emit)
            =~= seq![TimerEvent::TimerUpdate(0), TimerEvent::PeriodComplete],
{
}

} // verus!
