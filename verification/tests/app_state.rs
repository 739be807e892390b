use focus_lock::app_state::AppState;
use focus_lock::persistent::PersistentState;
use focus_lock::quotes::Quote;
use focus_lock::settings::{start_durations, Settings, StartConfig};

#[test]
fn loading_shows_the_cached_quote() {
    let mut app = AppState::default();
    let mut saved = PersistentState::default();
    saved.quote_cache = Some(Quote {
        text: "cached".into(),
        author: Some("who".into()),
        source: "online".into(),
        fetched_at: Some("2024-01-01T00:00:00+00:00".into()),
    });
    app.load(saved);
    assert_eq!(app.runtime.current_quote.text, "cached");
    assert_eq!(app.persistent.quote_cache.as_ref().map(|q| q.text.as_str()), Some("cached"));
}

#[test]
fn accepted_quote_is_cached_and_shown() {
    let mut app = AppState::default();
    app.accept_online_quote(Quote {
        text: "new".into(),
        author: None,
        source: "online".into(),
        fetched_at: Some("t".into()),
    });
    assert_eq!(app.runtime.current_quote.text, "new");
    assert_eq!(app.persistent.quote_cache.as_ref().unwrap().text, "new");
    assert_eq!(app.snapshot().quote.text, "new");
}

#[test]
fn start_uses_request_or_saved_lengths() {
    let s = Settings::default();
    assert_eq!(start_durations(None, &s), (25, 5));
    assert_eq!(
        start_durations(Some(StartConfig { focus_minutes: 50, break_minutes: 10 }), &s),
        (50, 10)
    );
    let sanitized = Settings { focus_minutes: 999, break_minutes: 0, ..Settings::default() }.sanitized();
    assert_eq!((sanitized.focus_minutes, sanitized.break_minutes), (180, 1));
}
