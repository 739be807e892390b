use focus_lock::lock_screen::{is_lock_window_label, lock_window_label, lock_window_labels};
use focus_lock::login::{apply_launch_at_login, LoginItemPlan, Platform};
use focus_lock::text::{decimal_string, parse_usize, trimmed};

#[test]
fn lock_windows_are_named_and_found() {
    assert_eq!(lock_window_label(0), "lock-screen-0");
    assert_eq!(lock_window_label(12), "lock-screen-12");
    assert!(is_lock_window_label("lock-screen-3"));
    assert!(!is_lock_window_label("main"));
    assert!(!is_lock_window_label("lock-scree"));
    let labels = vec!["main".to_string(), "lock-screen-1".to_string(), "lock-screen-0".to_string()];
    assert_eq!(lock_window_labels(&labels), vec!["lock-screen-1", "lock-screen-0"]);
}

#[test]
fn macos_launch_agent_plan() {
    let plan = apply_launch_at_login(true, Platform::MacOs, Some("/Users/a".into()), Some("/Apps/F".into()));
    match plan {
        LoginItemPlan::WriteHomeFile { home, dir, file, contents } => {
            assert_eq!(home, "/Users/a");
            assert_eq!(dir, "Library/LaunchAgents");
            assert_eq!(file, "com.acdiost.focuslock.plist");
            let expected = "<?xml version=\"1.0\" encoding=\"UTF-8\"?>\n<!DOCTYPE plist PUBLIC \"-//Apple//DTD PLIST 1.0//EN\" \"http://www.apple.com/DTDs/PropertyList-1.0.dtd\">\n<plist version=\"1.0\">\n<dict>\n\t<key>Label</key>\n\t<string>com.acdiost.focuslock</string>\n\t<key>ProgramArguments</key>\n\t<array>\n\t\t<string>/Apps/F</string>\n\t</array>\n\t<key>RunAtLoad</key>\n\t<true/>\n\t<key>KeepAlive</key>\n\t<false/>\n</dict>\n</plist>\n";
            assert_eq!(contents, expected);
        }
        other => panic!("unexpected plan {:?}", other),
    }
    assert!(matches!(
        apply_launch_at_login(false, Platform::MacOs, Some("/h".into()), None),
        LoginItemPlan::RemoveHomeFile { .. }
    ));
    assert!(matches!(
        apply_launch_at_login(true, Platform::MacOs, None, Some("/x".into())),
        LoginItemPlan::Nothing
    ));
    assert!(matches!(
        apply_launch_at_login(true, Platform::MacOs, Some("/h".into()), None),
        LoginItemPlan::Nothing
    ));
}

#[test]
fn linux_and_windows_plans() {
    match apply_launch_at_login(true, Platform::Linux, Some("/home/a".into()), Some("/usr/bin/fl".into())) {
        LoginItemPlan::WriteHomeFile { dir, file, contents, .. } => {
            assert_eq!(dir, ".config/autostart");
            assert_eq!(file, "com.acdiost.focuslock.desktop");
            assert_eq!(
                contents,
                "[Desktop Entry]\nType=Application\nName=Focus Lock\nComment=Pomodoro timer with break-time screen lock\nExec=/usr/bin/fl\nIcon=com.acdiost.focuslock\nHidden=false\nNoDisplay=false\nX-GNOME-Autostart-enabled=true\n"
            );
        }
        other => panic!("unexpected plan {:?}", other),
    }
    match apply_launch_at_login(true, Platform::Windows, None, Some("C:\\fl.exe".into())) {
        LoginItemPlan::SetRunValue { name, value } => {
            assert_eq!(name, "Focus Lock");
            assert_eq!(value, "C:\\fl.exe");
        }
        other => panic!("unexpected plan {:?}", other),
    }
    assert!(matches!(
        apply_launch_at_login(false, Platform::Windows, None, None),
        LoginItemPlan::DeleteRunValue { .. }
    ));
    assert!(matches!(
        apply_launch_at_login(true, Platform::Other, Some("/h".into()), Some("/x".into())),
        LoginItemPlan::Nothing
    ));
}

#[test]
fn decimal_numbers_and_parsing() {
    assert_eq!(decimal_string(0), "0");
    assert_eq!(decimal_string(9), "9");
    assert_eq!(decimal_string(10), "10");
    assert_eq!(decimal_string(u64::MAX), u64::MAX.to_string());
    assert_eq!(parse_usize("0"), Some(0));
    assert_eq!(parse_usize("+12"), Some(12));
    assert_eq!(parse_usize("007"), Some(7));
    assert_eq!(parse_usize(""), None);
    assert_eq!(parse_usize("+"), None);
    assert_eq!(parse_usize("-1"), None);
    assert_eq!(parse_usize("1 "), None);
    assert_eq!(parse_usize(&usize::MAX.to_string()), Some(usize::MAX));
    assert_eq!(parse_usize("18446744073709551616"), "18446744073709551616".parse::<usize>().ok());
}

#[test]
fn trimmed_strips_both_ends_only() {
    assert_eq!(trimmed("  a b \n"), "a b");
    assert_eq!(trimmed("\u{3000}x\u{a0}"), "x");
    assert_eq!(trimmed(""), "");
    assert_eq!(trimmed(" \t "), "");
    assert_eq!(trimmed("x\u{200b}"), "x\u{200b}");
    let samples = ["\u{85}ab\u{2028}", "\u{1680} z \u{205f}", "plain", " \u{2000}\u{200a} "];
    for s in samples {
        assert_eq!(trimmed(s), s.trim());
    }
}
