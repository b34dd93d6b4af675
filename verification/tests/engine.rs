use pomodoro_timer::timer::TimerEvent;
use pomodoro_timer::timer::TimerState;

#[test]
fn default_state_is_idle_work_25_5() {
    let s = TimerState::default();
    assert_eq!(s.start_time, None);
    assert!(!s.is_running);
    assert!(s.is_work_period);
    assert_eq!(s.duration, 1_500_000);
    assert_eq!(s.work_duration, 1_500_000);
    assert_eq!(s.break_duration, 300_000);
    assert_eq!(s.completed_pomodoros, 0);

    let snap = s.get_timer_state(0);
    assert!(!snap.is_running);
    assert!(snap.is_work_period);
    assert_eq!(snap.remaining_seconds, 1500);
    assert_eq!(snap.work_duration_minutes, 25);
    assert_eq!(snap.break_duration_minutes, 5);
    assert_eq!(snap.completed_pomodoros, 0);
}

#[test]
fn start_is_idempotent_and_spawns_one_loop() {
    let mut s = TimerState::default();
    assert!(s.start_timer(100));
    assert_eq!(s.start_time, Some(100));
    assert!(s.is_running);
    assert_eq!(s.duration, 1_500_000);

    // A second start changes nothing and must not spawn a second loop.
    assert!(!s.start_timer(90_000));
    assert_eq!(s.start_time, Some(100));
    assert!(s.is_running);
    assert_eq!(s.duration, 1_500_000);
}

#[test]
fn pause_then_resume_conserves_remaining() {
    let mut s = TimerState::default();
    s.start_timer(0);
    let before = s.get_timer_state(400_000).remaining_seconds;
    assert_eq!(before, 1100);

    s.pause_timer(400_000);
    assert!(!s.is_running);
    assert_eq!(s.start_time, None);
    assert_eq!(s.duration, 1_100_000);

    // Long after the pause, the countdown resumes where it stopped,
    // not at the full configured length.
    s.start_timer(9_000_000);
    assert_eq!(s.get_timer_state(9_000_000).remaining_seconds, before);
}

#[test]
fn pause_past_expiry_floors_at_zero() {
    let mut s = TimerState::default();
    s.start_timer(1_000);
    s.pause_timer(2_000_000);
    assert_eq!(s.duration, 0);
    assert!(!s.is_running);
}

#[test]
fn pause_while_idle_is_a_noop() {
    let mut s = TimerState::default();
    s.pause_timer(700_000);
    assert_eq!(s.duration, 1_500_000);
    assert!(!s.is_running);
    assert!(s.is_work_period);
}

#[test]
fn reset_lands_idle_with_full_length_of_chosen_phase() {
    let mut s = TimerState::default();
    s.update_settings(40, 10);
    s.start_timer(0);
    s.switch_period();
    s.start_timer(50_000);

    // Whatever went before, reset(true) lands idle in the work phase with
    // the full configured work length.
    s.reset_timer(true);
    assert!(!s.is_running);
    assert!(s.is_work_period);
    assert_eq!(s.start_time, None);
    let snap = s.get_timer_state(123_456);
    assert_eq!(snap.remaining_seconds, snap.work_duration_minutes * 60);
    assert_eq!(snap.remaining_seconds, 2400);
    assert_eq!(s.completed_pomodoros, 1);

    s.reset_timer(false);
    assert!(!s.is_running);
    assert!(!s.is_work_period);
    assert_eq!(s.get_timer_state(999_999).remaining_seconds, 600);
}

#[test]
fn switch_from_work_increments_count_and_notifies() {
    let mut s = TimerState::default();
    let events = s.switch_period();
    assert_eq!(
        events,
        vec![
            TimerEvent::PomodoroCompleted(1),
            TimerEvent::PeriodChanged(false),
        ]
    );
    assert!(!s.is_work_period);
    assert!(!s.is_running);
    assert_eq!(s.completed_pomodoros, 1);
    assert_eq!(s.duration, 300_000);
}

#[test]
fn switch_from_break_keeps_count() {
    let mut s = TimerState::default();
    s.switch_period();
    let events = s.switch_period();
    assert_eq!(events, vec![TimerEvent::PeriodChanged(true)]);
    assert!(s.is_work_period);
    assert_eq!(s.completed_pomodoros, 1);
    assert_eq!(s.duration, 1_500_000);
}

#[test]
fn settings_change_while_idle_takes_effect_at_once() {
    let mut s = TimerState::default();
    s.update_settings(30, 10);
    assert_eq!(s.work_duration, 1_800_000);
    assert_eq!(s.break_duration, 600_000);
    assert_eq!(s.duration, 1_800_000);
    assert_eq!(s.get_timer_state(0).remaining_seconds, 1800);

    // In the break phase the break length is the one reloaded.
    s.reset_timer(false);
    s.update_settings(30, 7);
    assert_eq!(s.duration, 420_000);
}

#[test]
fn settings_change_while_running_leaves_countdown_alone() {
    let mut s = TimerState::default();
    s.start_timer(0);
    s.update_settings(50, 2);
    assert_eq!(s.work_duration, 3_000_000);
    assert_eq!(s.duration, 1_500_000);
    assert_eq!(s.get_timer_state(1_000).remaining_seconds, 1499);
}

#[test]
fn zero_length_settings_are_accepted() {
    let mut s = TimerState::default();
    s.update_settings(0, 0);
    assert_eq!(s.duration, 0);
    assert_eq!(s.get_timer_state(0).remaining_seconds, 0);

    // A zero-length phase expires on the first due poll.
    s.start_timer(5_000);
    let outcome = s.plan_tick(6_000, 5_000);
    assert!(outcome.completed);
    assert!(outcome.stop);
    assert_eq!(
        outcome.events,
        vec![TimerEvent::TimerUpdate(0), TimerEvent::PeriodComplete]
    );
}

#[test]
fn remaining_is_zero_exactly_from_expiry_on() {
    let mut s = TimerState::default();
    s.start_timer(1_000);
    assert_eq!(s.get_timer_state(1_000).remaining_seconds, 1500);
    assert_eq!(s.get_timer_state(1_500_999).remaining_seconds, 0);
    assert_eq!(s.get_timer_state(1_501_000).remaining_seconds, 0);
    assert_eq!(s.get_timer_state(u64::MAX).remaining_seconds, 0);
    assert_eq!(s.get_timer_state(1_500_000).remaining_seconds, 1);
}

#[test]
fn tick_stops_silently_after_external_stop() {
    let mut s = TimerState::default();
    s.start_timer(0);
    s.pause_timer(30_000);
    let outcome = s.plan_tick(31_000, 0);
    assert!(outcome.stop);
    assert!(!outcome.completed);
    assert!(outcome.events.is_empty());
}

#[test]
fn tick_before_interval_emits_nothing_and_keeps_polling() {
    let mut s = TimerState::default();
    s.start_timer(0);
    let outcome = s.plan_tick(999, 0);
    assert!(!outcome.stop);
    assert!(!outcome.completed);
    assert!(outcome.events.is_empty());
}

#[test]
fn due_tick_reports_remaining_seconds() {
    let mut s = TimerState::default();
    s.start_timer(0);
    let outcome = s.plan_tick(2_000, 0);
    assert!(!outcome.stop);
    assert!(!outcome.completed);
    assert_eq!(outcome.events, vec![TimerEvent::TimerUpdate(1498)]);
}

#[test]
fn expired_tick_completes_with_final_update() {
    let mut s = TimerState::default();
    s.start_timer(0);
    let outcome = s.plan_tick(1_500_000, 1_499_000);
    assert!(outcome.stop);
    assert!(outcome.completed);
    assert_eq!(
        outcome.events,
        vec![TimerEvent::TimerUpdate(0), TimerEvent::PeriodComplete]
    );
}

#[test]
fn full_work_phase_scenario() {
    // Default state: work phase, 25 minutes, idle.
    let mut s = TimerState::default();
    let mut emitted: Vec<TimerEvent> = Vec::new();

    s.start_timer(0);

    // Simulated clock reaches the configured duration; the poll completes.
    let outcome = s.plan_tick(1_500_000, 1_499_000);
    emitted.extend(outcome.events.iter().cloned());
    assert!(outcome.completed);
    if outcome.completed {
        let events = s.switch_period();
        emitted.extend(events.iter().cloned());
    }

    assert_eq!(
        emitted,
        vec![
            TimerEvent::TimerUpdate(0),
            TimerEvent::PeriodComplete,
            TimerEvent::PomodoroCompleted(1),
            TimerEvent::PeriodChanged(false),
        ]
    );

    let snap = s.get_timer_state(1_500_000);
    assert!(!snap.is_work_period);
    assert!(!snap.is_running);
    assert_eq!(snap.remaining_seconds, 300);
    assert_eq!(snap.completed_pomodoros, 1);
}
