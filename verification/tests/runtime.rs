use focus_lock::app_state::{AppState, ExitBreakPlan};
use focus_lock::runtime::{Phase, RuntimeState, TickAction};

fn focused(minutes: u64) -> RuntimeState {
    let mut r = RuntimeState::default();
    r.start_focus(minutes);
    r
}

#[test]
fn default_timer_is_idle() {
    let r = RuntimeState::default();
    assert_eq!(r.phase, Phase::Idle);
    assert_eq!(r.remaining_seconds, 0);
    assert_eq!(r.total_seconds, 0);
    assert!(!r.paused);
    assert!(!r.allow_lock_close);
    assert_eq!(r.current_quote.source, "local");
}

#[test]
fn focus_length_is_clamped_minutes() {
    let r = focused(25);
    assert_eq!(r.phase, Phase::Focus);
    assert_eq!(r.remaining_seconds, 1500);
    assert_eq!(r.total_seconds, 1500);
    assert_eq!(focused(0).remaining_seconds, 60);
    assert_eq!(focused(1000).total_seconds, 180 * 60);
}

#[test]
fn countdown_moves_and_ends_focus() {
    let mut r = focused(1);
    assert_eq!(r.advance(0), TickAction::NoChange);
    assert_eq!(r.remaining_seconds, 60);
    assert_eq!(r.advance(10), TickAction::Emit);
    assert_eq!(r.remaining_seconds, 50);
    assert_eq!(r.advance(20), TickAction::Emit);
    assert_eq!(r.remaining_seconds, 30);
    assert_eq!(r.advance(45), TickAction::EnterBreak);
    assert_eq!(r.remaining_seconds, 0);
    assert_eq!(r.total_seconds, 60);
}

#[test]
fn countdown_ends_break() {
    let mut r = RuntimeState::default();
    let q = r.current_quote.clone();
    r.start_break(5, q);
    assert_eq!(r.phase, Phase::Break);
    assert_eq!(r.remaining_seconds, 300);
    assert!(r.is_break_active());
    assert!(r.lock_close_blocked());
    assert_eq!(r.advance(300), TickAction::ExitBreak);
}

#[test]
fn paused_or_idle_timer_does_not_move() {
    let mut r = focused(2);
    assert!(r.pause());
    assert!(r.paused);
    assert_eq!(r.advance(30), TickAction::NoChange);
    assert_eq!(r.remaining_seconds, 120);
    assert_eq!(r.tick_runtime(), TickAction::NoChange);
    assert!(r.resume());
    assert!(!r.paused);
    let mut idle = RuntimeState::default();
    assert!(!idle.pause());
    assert!(!idle.paused);
    assert!(!idle.resume());
    assert_eq!(idle.advance(5), TickAction::NoChange);
    assert_eq!(idle.tick_runtime(), TickAction::NoChange);
}

#[test]
fn a_fresh_tick_usually_moves_nothing() {
    let mut r = focused(3);
    let action = r.tick_runtime();
    assert!(matches!(action, TickAction::NoChange | TickAction::Emit));
    assert!(r.remaining_seconds <= 180);
}

#[test]
fn idle_clears_countdown_and_releases_locks() {
    let mut r = focused(3);
    r.advance(5);
    r.enter_idle();
    assert_eq!(r.phase, Phase::Idle);
    assert_eq!(r.remaining_seconds, 0);
    assert_eq!(r.total_seconds, 0);
    assert!(!r.paused);
    assert!(r.allow_lock_close);
    assert!(!r.lock_close_blocked());
}

#[test]
fn break_counts_a_round_and_uses_saved_length() {
    let mut app = AppState::default();
    app.persistent.settings.break_minutes = 7;
    app.runtime.start_focus(25);
    app.enter_break();
    assert_eq!(app.persistent.completed_cycles, 1);
    assert_eq!(app.runtime.phase, Phase::Break);
    assert_eq!(app.runtime.remaining_seconds, 420);
    assert_eq!(app.runtime.total_seconds, 420);
    assert_eq!(app.runtime.current_quote.source, "local");
}

#[test]
fn exit_plan_follows_auto_restart() {
    let mut app = AppState::default();
    assert_eq!(app.exit_break_plan(), ExitBreakPlan::Idle);
    app.persistent.settings.auto_restart = true;
    app.persistent.settings.focus_minutes = 40;
    app.persistent.settings.break_minutes = 10;
    assert_eq!(
        app.exit_break_plan(),
        ExitBreakPlan::RestartFocus { focus_minutes: 40, break_minutes: 10 }
    );
}

#[test]
fn begin_focus_saves_clamped_lengths() {
    let mut app = AppState::default();
    app.begin_focus_settings(0, 99);
    assert_eq!(app.persistent.settings.focus_minutes, 1);
    assert_eq!(app.persistent.settings.break_minutes, 60);
    app.runtime.start_focus(0);
    let snap = app.snapshot();
    assert_eq!(snap.phase, Phase::Focus);
    assert_eq!(snap.remaining_seconds, 60);
    assert_eq!(snap.settings.focus_minutes, 1);
    assert_eq!(snap.today_tasks.len(), 3);
    assert_eq!(snap.task_statuses.len(), 3);
}

#[test]
fn two_ticks_equal_one_tick_of_their_sum() {
    let mut a = focused(10);
    let mut b = focused(10);
    assert_eq!(a.advance(7), TickAction::Emit);
    assert_eq!(a.advance(13), TickAction::Emit);
    assert_eq!(b.advance(20), TickAction::Emit);
    assert_eq!(a.remaining_seconds, b.remaining_seconds);
    assert_eq!(a.remaining_seconds, 580);
}

#[test]
fn resume_after_pause_restores_the_round() {
    let mut r = focused(4);
    r.advance(30);
    let before = (r.phase, r.remaining_seconds, r.total_seconds, r.paused);
    r.pause();
    r.resume();
    assert_eq!((r.phase, r.remaining_seconds, r.total_seconds, r.paused), before);
}

#[test]
fn forced_break_with_time_left_is_kept() {
    let mut app = AppState::default();
    app.persistent.settings.force_break = true;
    app.persistent.settings.auto_restart = true;
    app.enter_break();
    assert_eq!(app.runtime.phase, Phase::Break);
    assert_eq!(app.exit_break_plan(), ExitBreakPlan::KeepBreak);
    app.runtime.advance(10);
    assert_eq!(app.exit_break_plan(), ExitBreakPlan::KeepBreak);
    // Once the countdown has run out, the break ends as any break does.
    let left = app.runtime.remaining_seconds;
    assert_eq!(app.runtime.advance(left), TickAction::ExitBreak);
    assert_eq!(
        app.exit_break_plan(),
        ExitBreakPlan::RestartFocus { focus_minutes: 25, break_minutes: 5 }
    );
}

#[test]
fn unforced_break_may_end_early() {
    let mut app = AppState::default();
    app.persistent.settings.force_break = false;
    app.enter_break();
    assert_eq!(app.exit_break_plan(), ExitBreakPlan::Idle);
    app.persistent.settings.auto_restart = true;
    app.persistent.settings.focus_minutes = 30;
    assert_eq!(
        app.exit_break_plan(),
        ExitBreakPlan::RestartFocus { focus_minutes: 30, break_minutes: 5 }
    );
}

#[test]
fn lock_window_guard_toggles_closing() {
    let mut r = RuntimeState::default();
    let q = r.current_quote.clone();
    r.start_break(1, q);
    r.guard_lock_windows();
    assert!(r.lock_close_blocked());
    r.release_lock_windows();
    assert!(!r.lock_close_blocked());
}
