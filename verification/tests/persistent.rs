use focus_lock::clock::today_string;
use focus_lock::persistent::{
    current_quote, ensure_today_fresh, next_task_status, PersistentState,
};
use focus_lock::quotes::{local_quote_for_seed, local_quotes, Quote};
use focus_lock::settings::{default_true, Settings};

#[test]
fn stale_tasks_reset_when_date_changes() {
    let mut state = PersistentState {
        today_date: "2001-01-01".to_string(),
        today_tasks: vec!["A".to_string()],
        completed_cycles: 3,
        ..PersistentState::default()
    };
    ensure_today_fresh(&mut state);
    assert_eq!(state.today_date, today_string());
    assert!(state.today_tasks.iter().all(|t| t.is_empty()));
    assert_eq!(state.completed_cycles, 0);
}

fn state_for(day: &str, tasks: &[&str], statuses: &[&str], cycles: u32) -> PersistentState {
    PersistentState {
        settings: Settings::default(),
        today_date: day.to_string(),
        today_tasks: tasks.iter().map(|s| s.to_string()).collect(),
        task_statuses: statuses.iter().map(|s| s.to_string()).collect(),
        quote_cache: None,
        completed_cycles: cycles,
    }
}

#[test]
fn default_state_has_three_blank_slots() {
    let state = PersistentState::default();
    assert_eq!(state.today_tasks, vec![String::new(); 3]);
    assert_eq!(state.task_statuses, vec!["none".to_string(); 3]);
    assert_eq!(state.completed_cycles, 0);
    assert!(state.quote_cache.is_none());
    assert_eq!(state.settings.focus_minutes, 25);
    assert_eq!(state.settings.break_minutes, 5);
    assert!(state.settings.force_break);
    assert!(default_true());
}

#[test]
fn same_day_keeps_tasks_and_fits_slots() {
    let mut state = state_for("2030-01-01", &["a", "b", "c", "d"], &["done"], 4);
    state.refresh_for_date("2030-01-01".to_string());
    assert_eq!(state.today_tasks, vec!["a", "b", "c"]);
    assert_eq!(state.task_statuses, vec!["done", "none", "none"]);
    assert_eq!(state.completed_cycles, 4);
    // A second refresh on the same day changes nothing.
    state.refresh_for_date("2030-01-01".to_string());
    assert_eq!(state.today_tasks, vec!["a", "b", "c"]);
    assert_eq!(state.task_statuses, vec!["done", "none", "none"]);
}

#[test]
fn new_day_clears_tasks_statuses_and_rounds() {
    let mut state = state_for("2030-01-01", &["a", "b"], &["doing", "done"], 9);
    state.refresh_for_date("2030-01-02".to_string());
    assert_eq!(state.today_date, "2030-01-02");
    assert_eq!(state.today_tasks, vec!["", "", ""]);
    assert_eq!(state.task_statuses, vec!["none", "none", "none"]);
    assert_eq!(state.completed_cycles, 0);
}

#[test]
fn too_many_tasks_are_refused() {
    let mut state = state_for("2001-01-01", &["x"], &["doing"], 1);
    let r = state.set_today_tasks(vec!["1".into(), "2".into(), "3".into(), "4".into()]);
    assert_eq!(r, Err("今日重要事项最多 3 件".to_string()));
    assert_eq!(state.today_date, "2001-01-01");
    assert_eq!(state.today_tasks, vec!["x"]);
}

#[test]
fn tasks_are_trimmed_padded_and_blank_slots_reset() {
    let today = today_string();
    let mut state = state_for(&today, &["old", "keep", "gone"], &["done", "doing", "done"], 2);
    let r = state.set_today_tasks(vec!["  write report \t".into(), "keep".into()]);
    assert_eq!(r, Ok(vec!["write report".to_string(), "keep".to_string(), String::new()]));
    assert_eq!(state.today_tasks, vec!["write report", "keep", ""]);
    assert_eq!(state.task_statuses, vec!["done", "doing", "none"]);
    let r2 = state.set_today_tasks(vec!["\u{3000}全角\u{3000}".into(), "   ".into()]);
    assert_eq!(r2, Ok(vec!["全角".to_string(), String::new(), String::new()]));
    assert_eq!(state.task_statuses, vec!["done", "none", "none"]);
}

#[test]
fn task_status_needs_valid_index_status_and_task() {
    let today = today_string();
    let mut state = state_for(&today, &["a", "", "c"], &["none", "none", "none"], 0);
    assert!(!state.set_task_status(3, "done".into()));
    assert!(!state.set_task_status(0, "finished".into()));
    assert!(!state.set_task_status(1, "done".into()));
    assert_eq!(state.task_statuses, vec!["none", "none", "none"]);
    assert!(state.set_task_status(2, "doing".into()));
    assert_eq!(state.task_statuses, vec!["none", "none", "doing"]);
}

#[test]
fn tray_clicks_cycle_statuses() {
    assert_eq!(next_task_status("none"), "doing");
    assert_eq!(next_task_status("doing"), "done");
    assert_eq!(next_task_status("done"), "none");
    assert_eq!(next_task_status("weird"), "none");
    let today = today_string();
    let mut state = state_for(&today, &["a", "", ""], &["none", "none", "none"], 0);
    assert!(state.cycle_task_status(0));
    assert!(state.cycle_task_status(0));
    assert_eq!(state.task_statuses[0], "done");
    assert!(state.cycle_task_status(0));
    assert_eq!(state.task_statuses[0], "none");
    assert!(!state.cycle_task_status(1));
    assert!(!state.cycle_task_status(7));
}

#[test]
fn completed_rounds_saturate() {
    let mut state = state_for("d", &[], &[], u32::MAX - 1);
    state.record_completed_cycle();
    assert_eq!(state.completed_cycles, u32::MAX);
    state.record_completed_cycle();
    assert_eq!(state.completed_cycles, u32::MAX);
}

#[test]
fn saved_settings_are_clamped() {
    let mut state = state_for("d", &[], &[], 0);
    let given = Settings {
        focus_minutes: 0,
        break_minutes: 500,
        enable_online_quote: false,
        auto_restart: true,
        launch_on_login: true,
        force_break: false,
        language: "en".to_string(),
    };
    let saved = state.save_settings(&given);
    assert_eq!(saved.focus_minutes, 1);
    assert_eq!(saved.break_minutes, 60);
    assert!(!saved.enable_online_quote && saved.auto_restart && saved.launch_on_login);
    assert!(!saved.force_break);
    assert_eq!(saved.language, "en");
    assert_eq!(state.settings.focus_minutes, 1);
    let again = state.save_settings(&Settings { focus_minutes: 200, break_minutes: 30, ..given });
    assert_eq!(again.focus_minutes, 180);
    assert_eq!(again.break_minutes, 30);
}

#[test]
fn quote_shown_is_cache_or_local() {
    let mut state = state_for("d", &[], &[], 0);
    let q = current_quote(&state);
    assert_eq!(q.source, "local");
    assert!(local_quotes().iter().any(|(t, _)| *t == q.text));
    state.quote_cache = Some(Quote {
        text: "cached".into(),
        author: None,
        source: "online".into(),
        fetched_at: Some("x".into()),
    });
    assert_eq!(current_quote(&state).text, "cached");
    assert_eq!(local_quote_for_seed(3).source, "local");
}

#[test]
fn trimming_strips_unicode_white_space() {
    let mut state = state_for(&today_string(), &[], &[], 0);
    let r = state.set_today_tasks(vec!["  a b \n".into(), "\u{a0}x\u{2003}".into(), " \t ".into()]);
    assert_eq!(r, Ok(vec!["a b".to_string(), "x".to_string(), String::new()]));
}
