use vibepanel::config::{OptionValue, WidgetEntry};
use vibepanel::widgets::launcher::{
    click_action, running_app_ids, running_dot_visibility, LaunchAction, LauncherConfig,
    PinnedApp, WindowInfo, MIN_ICON_SIZE,
};

fn s(v: &str) -> OptionValue {
    OptionValue::Str(v.to_string())
}

fn table(pairs: Vec<(&str, OptionValue)>) -> OptionValue {
    OptionValue::Table(pairs.into_iter().map(|(k, v)| (k.to_string(), v)).collect())
}

fn entry(pairs: Vec<(&str, OptionValue)>) -> WidgetEntry {
    WidgetEntry { options: pairs.into_iter().map(|(k, v)| (k.to_string(), v)).collect() }
}

fn window(id: u64, app_id: &str) -> WindowInfo {
    WindowInfo { id, app_id: app_id.to_string(), title: format!("window {id}") }
}

fn assert_app(app: &PinnedApp, name: &str, command: &str, icon: &str, app_id: &str) {
    assert_eq!(app.name, name);
    assert_eq!(app.command, command);
    assert_eq!(app.icon, icon);
    assert_eq!(app.app_id, app_id);
}

#[test]
fn from_entry_reads_documented_example() {
    let e = entry(vec![(
        "apps",
        OptionValue::Array(vec![
            table(vec![("name", s("Firefox")), ("exec", s("firefox")), ("icon", s("firefox"))]),
            table(vec![
                ("name", s("Terminal")),
                ("exec", s("kitty")),
                ("icon", s("utilities-terminal")),
            ]),
        ]),
    )]);
    let cfg = LauncherConfig::from_entry(&e);
    assert_eq!(cfg.icon_size, None);
    assert_eq!(cfg.apps.len(), 2);
    assert_app(&cfg.apps[0], "Firefox", "firefox", "firefox", "firefox");
    assert_app(&cfg.apps[1], "Terminal", "kitty", "utilities-terminal", "terminal");
}

#[test]
fn from_entry_defaults_icon_and_app_id_to_lowercased_name() {
    let e = entry(vec![(
        "apps",
        OptionValue::Array(vec![
            table(vec![("name", s("GIMP Editor")), ("exec", s("gimp"))]),
            table(vec![("name", s("Files")), ("exec", s("nautilus")), ("icon", s(""))]),
        ]),
    )]);
    let cfg = LauncherConfig::from_entry(&e);
    assert_eq!(cfg.apps.len(), 2);
    assert_app(&cfg.apps[0], "GIMP Editor", "gimp", "gimp editor", "gimp editor");
    assert_app(&cfg.apps[1], "Files", "nautilus", "files", "files");
}

#[test]
fn from_entry_lowercases_given_app_id() {
    let e = entry(vec![(
        "apps",
        OptionValue::Array(vec![table(vec![
            ("name", s("Firefox")),
            ("exec", s("firefox")),
            ("app_id", s("Org.Mozilla.Firefox")),
        ])]),
    )]);
    let cfg = LauncherConfig::from_entry(&e);
    assert_app(&cfg.apps[0], "Firefox", "firefox", "firefox", "org.mozilla.firefox");
}

#[test]
fn from_entry_keeps_empty_app_id() {
    let e = entry(vec![(
        "apps",
        OptionValue::Array(vec![table(vec![
            ("name", s("Tool")),
            ("exec", s("tool")),
            ("app_id", s("")),
        ])]),
    )]);
    let cfg = LauncherConfig::from_entry(&e);
    assert_app(&cfg.apps[0], "Tool", "tool", "tool", "");
}

#[test]
fn from_entry_skips_invalid_items_in_order() {
    let e = entry(vec![(
        "apps",
        OptionValue::Array(vec![
            table(vec![("name", s("NoExec"))]),
            s("not a table"),
            table(vec![("name", s("A")), ("exec", s("a"))]),
            table(vec![("exec", s("noname"))]),
            table(vec![("name", OptionValue::Integer(3)), ("exec", s("x"))]),
            table(vec![("name", s("B")), ("exec", s("b"))]),
        ]),
    )]);
    let cfg = LauncherConfig::from_entry(&e);
    assert_eq!(cfg.apps.len(), 2);
    assert_app(&cfg.apps[0], "A", "a", "a", "a");
    assert_app(&cfg.apps[1], "B", "b", "b", "b");
}

#[test]
fn from_entry_without_apps_array_has_no_apps() {
    let cfg = LauncherConfig::from_entry(&entry(vec![]));
    assert!(cfg.apps.is_empty());
    assert_eq!(cfg.icon_size, None);
    let cfg = LauncherConfig::from_entry(&entry(vec![("apps", s("firefox"))]));
    assert!(cfg.apps.is_empty());
}

#[test]
fn from_entry_clamps_icon_size() {
    let cfg = LauncherConfig::from_entry(&entry(vec![("icon_size", OptionValue::Integer(4))]));
    assert_eq!(cfg.icon_size, Some(MIN_ICON_SIZE));
    let cfg = LauncherConfig::from_entry(&entry(vec![("icon_size", OptionValue::Integer(-20))]));
    assert_eq!(cfg.icon_size, Some(8));
    let cfg = LauncherConfig::from_entry(&entry(vec![("icon_size", OptionValue::Integer(32))]));
    assert_eq!(cfg.icon_size, Some(32));
    let cfg = LauncherConfig::from_entry(&entry(vec![("icon_size", OptionValue::Integer(8))]));
    assert_eq!(cfg.icon_size, Some(8));
}

#[test]
fn from_entry_truncates_icon_size_to_i32() {
    let big = (1i64 << 32) + 40;
    let cfg = LauncherConfig::from_entry(&entry(vec![("icon_size", OptionValue::Integer(big))]));
    assert_eq!(cfg.icon_size, Some(40));
}

#[test]
fn from_entry_ignores_non_integer_icon_size() {
    let cfg = LauncherConfig::from_entry(&entry(vec![("icon_size", s("32"))]));
    assert_eq!(cfg.icon_size, None);
    let cfg = LauncherConfig::from_entry(&entry(vec![("icon_size", OptionValue::Other)]));
    assert_eq!(cfg.icon_size, None);
}

#[test]
fn from_entry_uses_first_of_repeated_keys() {
    let cfg = LauncherConfig::from_entry(&entry(vec![
        ("icon_size", OptionValue::Integer(20)),
        ("icon_size", OptionValue::Integer(30)),
    ]));
    assert_eq!(cfg.icon_size, Some(20));
}

#[test]
fn default_config_is_empty() {
    let cfg = LauncherConfig::default();
    assert!(cfg.apps.is_empty());
    assert_eq!(cfg.icon_size, None);
}

#[test]
fn resolve_icon_size_prefers_configured_value() {
    let mut cfg = LauncherConfig { apps: vec![], icon_size: Some(40) };
    assert_eq!(cfg.resolve_icon_size(24), 40);
    assert_eq!(cfg.icon_size, Some(40));
}

#[test]
fn resolve_icon_size_falls_back_to_theme_and_clamps() {
    let mut cfg = LauncherConfig { apps: vec![], icon_size: None };
    assert_eq!(cfg.resolve_icon_size(24), 24);
    assert_eq!(cfg.icon_size, Some(24));
    let mut cfg = LauncherConfig { apps: vec![], icon_size: None };
    assert_eq!(cfg.resolve_icon_size(2), 8);
    let mut cfg = LauncherConfig { apps: vec![], icon_size: Some(5) };
    assert_eq!(cfg.resolve_icon_size(24), 8);
    assert_eq!(cfg.icon_size, Some(8));
}

#[test]
fn click_focuses_first_matching_window_case_insensitively() {
    let ws = vec![window(1, "kitty"), window(2, "Firefox"), window(3, "firefox")];
    match click_action("firefox", "firefox", &ws) {
        LaunchAction::Focus(id) => assert_eq!(id, 2),
        other => panic!("expected focus, got {other:?}"),
    }
    match click_action("FireFox", "firefox", &ws) {
        LaunchAction::Focus(id) => assert_eq!(id, 2),
        other => panic!("expected focus, got {other:?}"),
    }
}

#[test]
fn click_spawns_when_no_window_matches() {
    let ws = vec![window(1, "kitty"), window(2, "")];
    match click_action("firefox", "firefox --new-window", &ws) {
        LaunchAction::Spawn(cmd) => assert_eq!(cmd, "firefox --new-window"),
        other => panic!("expected spawn, got {other:?}"),
    }
}

#[test]
fn click_never_matches_windows_without_app_id() {
    let ws = vec![window(7, "")];
    match click_action("", "true", &ws) {
        LaunchAction::Spawn(cmd) => assert_eq!(cmd, "true"),
        other => panic!("expected spawn, got {other:?}"),
    }
}

#[test]
fn running_ids_are_lowercased_and_skip_empty() {
    let ws = vec![window(1, "Kitty"), window(2, ""), window(3, "firefox")];
    assert_eq!(running_app_ids(&ws), vec!["kitty".to_string(), "firefox".to_string()]);
}

#[test]
fn dots_follow_running_windows() {
    let ws = vec![window(1, "Kitty"), window(2, "")];
    let dots = vec!["kitty".to_string(), "firefox".to_string(), "".to_string(), "Kitty".to_string()];
    assert_eq!(running_dot_visibility(&dots, &ws), vec![true, false, false, true]);
    assert_eq!(running_dot_visibility(&dots, &vec![]), vec![false, false, false, false]);
}

#[test]
fn dot_and_click_agree_for_any_case() {
    let ws = vec![window(4, "Code"), window(5, "")];
    for id in ["code", "Code", "CODE", "kitty", "firefox", ""] {
        let dot = running_dot_visibility(&vec![id.to_string()], &ws)[0];
        let focuses = matches!(click_action(id, "cmd", &ws), LaunchAction::Focus(_));
        assert_eq!(dot, focuses, "app id {id}");
    }
}

#[test]
fn dot_shows_for_mixed_case_pinned_id() {
    let ws = vec![window(9, "firefox")];
    assert_eq!(running_dot_visibility(&vec!["Firefox".to_string()], &ws), vec![true]);
    assert!(matches!(click_action("Firefox", "firefox", &ws), LaunchAction::Focus(9)));
}

#[test]
fn unknown_options_are_listed_in_order() {
    let e = entry(vec![
        ("apps", OptionValue::Array(vec![])),
        ("colour", s("red")),
        ("icon_size", OptionValue::Integer(16)),
        ("spacing", OptionValue::Integer(2)),
    ]);
    assert_eq!(LauncherConfig::unknown_options(&e), vec!["colour".to_string(), "spacing".to_string()]);
    assert!(LauncherConfig::unknown_options(&entry(vec![])).is_empty());
}

#[test]
fn extra_keys_change_nothing() {
    let plain = entry(vec![
        ("icon_size", OptionValue::Integer(20)),
        ("apps", OptionValue::Array(vec![table(vec![("name", s("Files")), ("exec", s("nautilus"))])])),
    ]);
    let extra = entry(vec![
        ("theme", s("dark")),
        ("icon_size", OptionValue::Integer(20)),
        (
            "apps",
            OptionValue::Array(vec![table(vec![
                ("name", s("Files")),
                ("comment", s("file manager")),
                ("exec", s("nautilus")),
            ])]),
        ),
    ]);
    let a = LauncherConfig::from_entry(&plain);
    let b = LauncherConfig::from_entry(&extra);
    assert_eq!(a.icon_size, b.icon_size);
    assert_eq!(a.apps.len(), b.apps.len());
    assert_app(&b.apps[0], &a.apps[0].name, &a.apps[0].command, &a.apps[0].icon, &a.apps[0].app_id);
}
