use clash_verge::dispatch::{
    initial_menu_on_left_click, on_menu_event, on_tray_click, resolve_tray_event,
    update_click_behavior, ClickAction, MenuAction,
};
use clash_verge::hotkeys::{parse_hotkey, HotkeyMap};
use clash_verge::tooltip::{
    current_profile_name, switch_label, tooltip_label_keys, tooltip_text, update_tooltip,
};
use clash_verge::tray_menu::{
    clash_mode, create_tray_menu, update_menu, ProfileEntry, TrayMenuEntry, TrayMenuItem,
};
use clash_verge::verge::IVerge;

fn s(v: &str) -> String {
    v.to_string()
}

#[test]
fn menu_event_mode_items_change_mode() {
    assert_eq!(on_menu_event("rule_mode"), MenuAction::ChangeMode(s("rule")));
    assert_eq!(on_menu_event("global_mode"), MenuAction::ChangeMode(s("global")));
    assert_eq!(on_menu_event("direct_mode"), MenuAction::ChangeMode(s("direct")));
}

#[test]
fn menu_event_fixed_items() {
    assert_eq!(on_menu_event("open_window"), MenuAction::OpenWindow);
    assert_eq!(on_menu_event("system_proxy"), MenuAction::ToggleSystemProxy);
    assert_eq!(on_menu_event("tun_mode"), MenuAction::ToggleTunMode);
    assert_eq!(on_menu_event("copy_env"), MenuAction::CopyEnv);
    assert_eq!(on_menu_event("restart_all"), MenuAction::RestartAll);
    assert_eq!(on_menu_event("quit"), MenuAction::Quit(0));
}

#[test]
fn menu_event_profiles_switch_profile() {
    assert_eq!(on_menu_event("profiles_abc123"), MenuAction::SwitchProfile(s("abc123")));
    assert_eq!(on_menu_event("profiles_"), MenuAction::SwitchProfile(s("")));
    assert_eq!(on_menu_event("profiles_\u{4e2d}\u{6587}"), MenuAction::SwitchProfile(s("\u{4e2d}\u{6587}")));
}

#[test]
fn menu_event_unknown_ids_are_ignored() {
    assert_eq!(on_menu_event("profiles"), MenuAction::Ignore);
    assert_eq!(on_menu_event(""), MenuAction::Ignore);
    assert_eq!(on_menu_event("Quit"), MenuAction::Ignore);
    assert_eq!(on_menu_event("rule_mode "), MenuAction::Ignore);
}

#[test]
fn tray_click_acts_on_left_press_only() {
    assert_eq!(on_tray_click("system_proxy", true), ClickAction::ToggleSystemProxy);
    assert_eq!(on_tray_click("tun_mode", true), ClickAction::ToggleTunMode);
    assert_eq!(on_tray_click("main_window", true), ClickAction::OpenWindow);
    assert_eq!(on_tray_click("tray_menu", true), ClickAction::Ignore);
    assert_eq!(on_tray_click("main_window", false), ClickAction::Ignore);
}

#[test]
fn tray_event_defaults_to_main_window() {
    assert_eq!(resolve_tray_event(&None), "main_window");
    assert_eq!(resolve_tray_event(&Some(s("tray_menu"))), "tray_menu");
    assert_eq!(IVerge::default().click_behavior(), "main_window");
}

#[test]
fn click_behavior_shows_menu_only_for_tray_menu() {
    assert!(update_click_behavior("tray_menu"));
    assert!(!update_click_behavior("main_window"));
    assert_eq!(initial_menu_on_left_click("tray_menu"), None);
    assert_eq!(initial_menu_on_left_click("system_proxy"), Some(false));
}

#[test]
fn hotkey_parsing_takes_first_two_fields() {
    assert_eq!(parse_hotkey("open_or_close_dashboard,CmdOrControl+D"), Some((s("open_or_close_dashboard"), s("CmdOrControl+D"))));
    assert_eq!(parse_hotkey("a,b,c"), Some((s("a"), s("b"))));
    assert_eq!(parse_hotkey("a,"), Some((s("a"), s(""))));
    assert_eq!(parse_hotkey(",x"), Some((s(""), s("x"))));
    assert_eq!(parse_hotkey("no-comma"), None);
    assert_eq!(parse_hotkey(""), None);
}

#[test]
fn hotkey_map_later_setting_wins() {
    let items = vec![s("toggle_tun_mode,Alt+T"), s("broken"), s("toggle_tun_mode,Alt+U"), s("quit,Q")];
    let map = HotkeyMap::from_settings(&items);
    assert_eq!(map.get("toggle_tun_mode"), Some(s("Alt+U")));
    assert_eq!(map.get("quit"), Some(s("Q")));
    assert_eq!(map.get("broken"), None);
    assert_eq!(HotkeyMap::from_optional_settings(&None).get("quit"), None);
}

fn item(e: &TrayMenuEntry) -> &TrayMenuItem {
    match e {
        TrayMenuEntry::Item(i) => i,
        _ => panic!("not an item"),
    }
}

#[test]
fn tray_menu_layout() {
    let profiles = vec![
        ProfileEntry { uid: s("p1"), name: s("Home"), is_current: false },
        ProfileEntry { uid: s("p2"), name: s("Work"), is_current: true },
    ];
    let hotkeys = HotkeyMap::from_settings(&vec![s("clash_mode_global,Ctrl+G"), s("toggle_system_proxy,Ctrl+S")]);
    let menu = create_tray_menu("global", true, false, &profiles, &hotkeys);
    assert_eq!(menu.len(), 16);
    for k in [1, 5, 7, 10, 12, 14] {
        assert!(matches!(menu[k], TrayMenuEntry::Separator));
    }
    assert_eq!(item(&menu[0]).id, "open_window");
    assert_eq!(item(&menu[0]).label, "Dashboard");
    assert_eq!(item(&menu[0]).accelerator, None);
    assert!(!item(&menu[2]).checked);
    assert!(item(&menu[3]).checked);
    assert_eq!(item(&menu[3]).accelerator, Some(s("Ctrl+G")));
    assert!(!item(&menu[4]).checked);
    assert!(item(&menu[8]).checked);
    assert_eq!(item(&menu[8]).accelerator, Some(s("Ctrl+S")));
    assert!(!item(&menu[9]).checked);
    assert_eq!(item(&menu[13]).label, "\u{1f923}\u{91cd}\u{542f}\u{89e3}\u{5343}\u{6101}");
    assert!(!item(&menu[13]).translate);
    assert_eq!(item(&menu[15]).accelerator, Some(s("CmdOrControl+Q")));
    match &menu[6] {
        TrayMenuEntry::Submenu { id, label, items } => {
            assert_eq!(id, "profiles");
            assert_eq!(label, "Profiles");
            assert_eq!(items.len(), 2);
            assert_eq!(items[0].id, "profiles_p1");
            assert_eq!(items[0].label, "Home");
            assert!(!items[0].checked);
            assert_eq!(items[1].id, "profiles_p2");
            assert!(items[1].checked);
        }
        _ => panic!("no profile submenu"),
    }
}

#[test]
fn every_menu_item_is_dispatched() {
    let profiles = vec![ProfileEntry { uid: s("uid-7"), name: s("x"), is_current: false }];
    let menu = create_tray_menu("rule", false, false, &profiles, &HotkeyMap::from_settings(&vec![]));
    assert_eq!(on_menu_event(&item(&menu[0]).id), MenuAction::OpenWindow);
    assert_eq!(on_menu_event(&item(&menu[2]).id), MenuAction::ChangeMode(s("rule")));
    assert_eq!(on_menu_event(&item(&menu[3]).id), MenuAction::ChangeMode(s("global")));
    assert_eq!(on_menu_event(&item(&menu[4]).id), MenuAction::ChangeMode(s("direct")));
    assert_eq!(on_menu_event(&item(&menu[8]).id), MenuAction::ToggleSystemProxy);
    assert_eq!(on_menu_event(&item(&menu[9]).id), MenuAction::ToggleTunMode);
    assert_eq!(on_menu_event(&item(&menu[11]).id), MenuAction::CopyEnv);
    assert_eq!(on_menu_event(&item(&menu[13]).id), MenuAction::RestartAll);
    assert_eq!(on_menu_event(&item(&menu[15]).id), MenuAction::Quit(0));
    if let TrayMenuEntry::Submenu { items, .. } = &menu[6] {
        assert_eq!(on_menu_event(&items[0].id), MenuAction::SwitchProfile(s("uid-7")));
    } else {
        panic!("no profile submenu");
    }
}

#[test]
fn clash_mode_defaults_to_rule() {
    assert_eq!(clash_mode(Some(Some(s("direct")))), "direct");
    assert_eq!(clash_mode(Some(None)), "rule");
    assert_eq!(clash_mode(None), "rule");
}

#[test]
fn update_menu_reads_settings() {
    let verge = IVerge {
        enable_system_proxy: Some(true),
        enable_tun_mode: None,
        hotkeys: Some(vec![s("open_or_close_dashboard,F1")]),
        ..IVerge::default()
    };
    let menu = update_menu(&verge, None, &vec![]);
    assert!(item(&menu[2]).checked);
    assert!(item(&menu[8]).checked);
    assert!(!item(&menu[9]).checked);
    assert_eq!(item(&menu[0]).accelerator, Some(s("F1")));
}

#[test]
fn tooltip_lines() {
    assert_eq!(switch_label(true), "on");
    assert_eq!(switch_label(false), "off");
    assert_eq!(tooltip_label_keys(), ("SysProxy", "TUN", "Profile"));
    assert_eq!(
        tooltip_text("2.0.0", "System Proxy", true, "TUN", false, "Profile", "Home"),
        "Clash Verge 2.0.0\nSystem Proxy: on\nTUN: off\nProfile: Home"
    );
}

#[test]
fn tooltip_profile_name_falls_back_to_none() {
    assert_eq!(current_profile_name(Some(Some(s("Work")))), "Work");
    assert_eq!(current_profile_name(Some(None)), "None");
    assert_eq!(current_profile_name(None), "None");
    let verge = IVerge { enable_tun_mode: Some(true), ..IVerge::default() };
    assert_eq!(
        update_tooltip("1.2", "SP", "T", "P", &verge, None),
        "Clash Verge 1.2\nSP: off\nT: on\nP: None"
    );
}
