use focus_lock::app_state::AppState;
use focus_lock::runtime::Phase;
use focus_lock::tray::{build_tray_menu, tray_command, tray_key, MenuEntry, TrayCommand};

fn ids(menu: &[MenuEntry]) -> Vec<String> {
    menu.iter()
        .map(|e| match e {
            MenuEntry::Item { id, .. } => id.clone(),
            MenuEntry::Separator => "-".to_string(),
        })
        .collect()
}

fn label(menu: &[MenuEntry], i: usize) -> String {
    match &menu[i] {
        MenuEntry::Item { label, .. } => label.clone(),
        MenuEntry::Separator => "-".to_string(),
    }
}

fn pair(t: &str, s: &str) -> (String, String) {
    (t.to_string(), s.to_string())
}

#[test]
fn idle_menu_in_chinese() {
    let menu = build_tray_menu(Phase::Idle, false, 0, true, &[], "");
    assert_eq!(ids(&menu), vec!["status", "-", "start", "-", "show", "about", "-", "quit"]);
    assert_eq!(label(&menu, 0), "Focus Lock · 待机");
    assert_eq!(label(&menu, 2), "开始番茄");
    assert!(matches!(&menu[0], MenuEntry::Item { enabled: false, .. }));
    assert!(matches!(&menu[2], MenuEntry::Item { enabled: true, .. }));
}

#[test]
fn focus_menu_in_english_with_rounds_and_tasks() {
    let tasks = vec![
        pair("Write the quarterly report today", "doing"),
        pair("", "none"),
        pair("Mail", "done"),
    ];
    let menu = build_tray_menu(Phase::Focus, false, 2, true, &tasks, "en");
    assert_eq!(
        ids(&menu),
        vec!["status", "-", "task_0", "task_2", "-", "pause", "cancel", "-", "show", "about", "-", "quit"]
    );
    assert_eq!(label(&menu, 0), "Focusing · Today: 2 rounds");
    assert_eq!(label(&menu, 2), "◑ Write the quarte…");
    assert_eq!(label(&menu, 3), "✓ Mail");
    assert_eq!(label(&menu, 5), "Pause");
    assert_eq!(label(&menu, 6), "Cancel Round");
    assert_eq!(label(&menu, 11), "Quit");
}

#[test]
fn paused_and_break_menus() {
    let paused = build_tray_menu(Phase::Focus, true, 1, true, &[pair("a", "x")], "en");
    assert_eq!(label(&paused, 0), "Paused · Today: 1 round");
    assert_eq!(label(&paused, 2), "○ a");
    assert_eq!(ids(&paused)[4], "resume");
    assert_eq!(ids(&paused)[5], "cancel");
    let forced = build_tray_menu(Phase::Break, false, 12, true, &[], "zh");
    assert_eq!(label(&forced, 0), "休息中 · 今日 12 轮");
    assert_eq!(ids(&forced), vec!["status", "-", "-", "show", "about", "-", "quit"]);
    let free = build_tray_menu(Phase::Break, false, 0, false, &[], "en");
    assert_eq!(ids(&free), vec!["status", "-", "end_break", "-", "show", "about", "-", "quit"]);
    assert_eq!(label(&free, 2), "End Break Early");
}

#[test]
fn sixteen_characters_are_not_cut() {
    let menu = build_tray_menu(Phase::Idle, false, 0, true, &[pair("一二三四五六七八九十一二三四五六", "none")], "");
    assert_eq!(label(&menu, 2), "○ 一二三四五六七八九十一二三四五六");
}

#[test]
fn tray_ids_map_to_commands() {
    assert_eq!(tray_command("start"), TrayCommand::Start);
    assert_eq!(tray_command("pause"), TrayCommand::Pause);
    assert_eq!(tray_command("resume"), TrayCommand::Resume);
    assert_eq!(tray_command("cancel"), TrayCommand::Cancel);
    assert_eq!(tray_command("end_break"), TrayCommand::EndBreak);
    assert_eq!(tray_command("task_2"), TrayCommand::CycleTask(2));
    assert_eq!(tray_command("task_+7"), TrayCommand::CycleTask(7));
    assert_eq!(tray_command("task_"), TrayCommand::Ignore);
    assert_eq!(tray_command("task_x"), TrayCommand::Ignore);
    assert_eq!(tray_command("task_99999999999999999999999"), TrayCommand::Ignore);
    assert_eq!(tray_command("show"), TrayCommand::ShowWindow);
    assert_eq!(tray_command("about"), TrayCommand::About);
    assert_eq!(tray_command("quit"), TrayCommand::Quit);
    assert_eq!(tray_command("status"), TrayCommand::Ignore);
}

#[test]
fn tray_key_writes_every_part() {
    let key = tray_key(Phase::Break, false, 3, true, "en", &[pair("a", "done"), pair("", "none")]);
    assert_eq!(key, "Break|false|3|true|en|a:done|:none|");
}

#[test]
fn tray_menu_is_rebuilt_only_on_change() {
    let mut app = AppState::default();
    let first = app.tray_menu_update();
    assert!(first.is_some());
    assert!(app.tray_menu_update().is_none());
    app.runtime.start_focus(5);
    let again = app.tray_menu_update().expect("phase changed");
    assert_eq!(ids(&again)[2], "pause");
    assert!(app.tray_menu_update().is_none());
}

#[test]
fn task_entry_ids_read_back_as_their_slot() {
    let tasks = vec![pair("a", "none"), pair("b", "doing"), pair("c", "done")];
    let menu = build_tray_menu(Phase::Idle, false, 0, true, &tasks, "en");
    let task_ids: Vec<String> = ids(&menu).into_iter().filter(|i| i.starts_with("task_")).collect();
    assert_eq!(task_ids.len(), 3);
    for (slot, id) in task_ids.iter().enumerate() {
        assert_eq!(tray_command(id), TrayCommand::CycleTask(slot));
    }
}
