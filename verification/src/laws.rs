//! Properties that span several functions of the tray.
use vstd::prelude::*;

use crate::dispatch::{spec_menu_action, MenuActionView};
use crate::tray_menu::{hotkey, spec_profile_item, spec_tray_menu, ProfileEntryView, TrayMenuEntryView, TrayMenuItemView};

verus! {


/// The item of a menu entry, when the entry is a plain item.
pub open spec fn entry_item(e: TrayMenuEntryView) -> TrayMenuItemView
    recommends
        e is Item,
{
    match e {
        TrayMenuEntryView::Item(i) => i,
        _ => arbitrary(),
    }
}

/// Every item of the tray menu is understood by the menu event handler: each fixed item
/// asks for the action it is labelled with, and each profile item asks to switch to its
/// own profile, whatever its uid.
pub proof fn lemma_menu_items_dispatch(
    mode: Seq<char>,
    system_proxy_enabled: bool,
    tun_mode_enabled: bool,
    profiles: Seq<ProfileEntryView>,
    hotkeys: Map<Seq<char>, Seq<char>>,
)
    ensures
        ({
            let m = spec_tray_menu(mode, system_proxy_enabled, tun_mode_enabled, profiles, hotkeys);
            &&& spec_menu_action(entry_item(m[0]).id) == MenuActionView::OpenWindow
            &&& spec_menu_action(entry_item(m[2]).id) == MenuActionView::ChangeMode("rule"@)
            &&& spec_menu_action(entry_item(m[3]).id) == MenuActionView::ChangeMode("global"@)
            &&& spec_menu_action(entry_item(m[4]).id) == MenuActionView::ChangeMode("direct"@)
            &&& spec_menu_action(entry_item(m[8]).id) == MenuActionView::ToggleSystemProxy
            &&& spec_menu_action(entry_item(m[9]).id) == MenuActionView::ToggleTunMode
            &&& spec_menu_action(entry_item(m[11]).id) == MenuActionView::CopyEnv
            &&& spec_menu_action(entry_item(m[13]).id) == MenuActionView::RestartAll
            &&& spec_menu_action(entry_item(m[15]).id) == MenuActionView::Quit(0)
            &&& m[6] matches TrayMenuEntryView::Submenu { items, .. } && items.len() == profiles.len()
                && forall|k: int|
                0 <= k < profiles.len() ==> spec_menu_action(#[trigger] items[k].id)
                    == MenuActionView::SwitchProfile(profiles[k].uid)
        }),
{
    reveal_strlit("rule_mode");
    reveal_strlit("global_mode");
    reveal_strlit("direct_mode");
    reveal_strlit("open_window");
    reveal_strlit("system_proxy");
    reveal_strlit("tun_mode");
    reveal_strlit("copy_env");
    reveal_strlit("restart_all");
    reveal_strlit("quit");
    reveal_strlit("profiles_");
    reveal_strlit("profiles");
    let m = spec_tray_menu(mode, system_proxy_enabled, tun_mode_enabled, profiles, hotkeys);
    assert("rule_mode"@[0] == 'r' && "rule_mode"@[1] == 'u');
    assert("global_mode"@[0] == 'g');
    assert("direct_mode"@[0] == 'd');
    assert("open_window"@[0] == 'o');
    assert("system_proxy"@[0] == 's');
    assert("tun_mode"@[0] == 't');
    assert("copy_env"@[0] == 'c');
    assert("restart_all"@[0] == 'r' && "restart_all"@[1] == 'e');
    assert("quit"@[0] == 'q');
    assert(entry_item(m[0]).id == "open_window"@);
    assert(entry_item(m[2]).id == "rule_mode"@);
    assert(entry_item(m[3]).id == "global_mode"@);
    assert(entry_item(m[4]).id == "direct_mode"@);
    assert(entry_item(m[8]).id == "system_proxy"@);
    assert(entry_item(m[9]).id == "tun_mode"@);
    assert(entry_item(m[11]).id == "copy_env"@);
    assert(entry_item(m[13]).id == "restart_all"@);
    assert(entry_item(m[15]).id == "quit"@);
    let items = profiles.map_values(|p: ProfileEntryView| spec_profile_item(p));
    assert forall|k: int| 0 <= k < profiles.len() implies spec_menu_action(#[trigger] items[k].id)
        == MenuActionView::SwitchProfile(profiles[k].uid) by {
        let id = "profiles_"@ + profiles[k].uid;
        assert(items[k].id == id);
        assert(id[0] == 'p');
        assert(id.subrange(0, 9) =~= "profiles_"@);
        assert(id.subrange(9, id.len() as int) =~= profiles[k].uid);
    }
}

/// The mode items carry the check mark of the current mode: each is marked exactly when
/// the mode is its own, so at most one is marked, and exactly one when the mode is `rule`,
/// `global` or `direct`. The switch items mark the state of their switch.
pub proof fn lemma_menu_marks(
    mode: Seq<char>,
    system_proxy_enabled: bool,
    tun_mode_enabled: bool,
    profiles: Seq<ProfileEntryView>,
    hotkeys: Map<Seq<char>, Seq<char>>,
)
    ensures
        ({
            let m = spec_tray_menu(mode, system_proxy_enabled, tun_mode_enabled, profiles, hotkeys);
            let rule = entry_item(m[2]).checked;
            let global = entry_item(m[3]).checked;
            let direct = entry_item(m[4]).checked;
            &&& rule == (mode == "rule"@)
            &&& global == (mode == "global"@)
            &&& direct == (mode == "direct"@)
            &&& !(rule && global) && !(rule && direct) && !(global && direct)
            &&& (rule || global || direct) <==> (mode == "rule"@ || mode == "global"@ || mode
                == "direct"@)
            &&& entry_item(m[8]).checked == system_proxy_enabled
            &&& entry_item(m[9]).checked == tun_mode_enabled
        }),
{
    reveal_strlit("rule");
    reveal_strlit("global");
    reveal_strlit("direct");
    assert("rule"@[0] == 'r');
    assert("global"@[0] == 'g');
    assert("direct"@[0] == 'd');
    let m = spec_tray_menu(mode, system_proxy_enabled, tun_mode_enabled, profiles, hotkeys);
    assert(entry_item(m[2]).checked == (mode == "rule"@));
    assert(entry_item(m[3]).checked == (mode == "global"@));
    assert(entry_item(m[4]).checked == (mode == "direct"@));
    assert(entry_item(m[8]).checked == system_proxy_enabled);
    assert(entry_item(m[9]).checked == tun_mode_enabled);
}

/// The label that names an action in the tray menu.
pub open spec fn action_label(a: MenuActionView) -> Seq<char> {
    match a {
        MenuActionView::ChangeMode(m) => {
            if m == "rule"@ {
                "Rule Mode"@
            } else if m == "global"@ {
                "Global Mode"@
            } else if m == "direct"@ {
                "Direct Mode"@
            } else {
                Seq::empty()
            }
        },
        MenuActionView::OpenWindow => "Dashboard"@,
        MenuActionView::ToggleSystemProxy => "System Proxy"@,
        MenuActionView::ToggleTunMode => "TUN Mode"@,
        MenuActionView::CopyEnv => "Copy Env"@,
        MenuActionView::RestartAll => "\u{1f923}\u{91cd}\u{542f}\u{89e3}\u{5343}\u{6101}"@,
        MenuActionView::Quit(_) => "Exit"@,
        MenuActionView::SwitchProfile(_) => Seq::empty(),
        MenuActionView::Ignore => Seq::empty(),
    }
}

/// Every item of the tray menu is labelled with what choosing it does: the label of each
/// plain item names the action its id dispatches to (the item that switches to global
/// mode reads "Global Mode", the one to direct mode "Direct Mode", and so on), and each
/// profile item carries the name of the very profile it switches to.
pub proof fn lemma_menu_labels_name_actions(
    mode: Seq<char>,
    system_proxy_enabled: bool,
    tun_mode_enabled: bool,
    profiles: Seq<ProfileEntryView>,
    hotkeys: Map<Seq<char>, Seq<char>>,
)
    ensures
        ({
            let m = spec_tray_menu(mode, system_proxy_enabled, tun_mode_enabled, profiles, hotkeys);
            &&& forall|k: int|
                0 <= k < m.len() && (#[trigger] m[k]) is Item ==> entry_item(m[k]).label
                    == action_label(spec_menu_action(entry_item(m[k]).id))
            &&& m[6] matches TrayMenuEntryView::Submenu { items, .. } && items.len() == profiles.len()
                && forall|k: int|
                0 <= k < profiles.len() ==> spec_menu_action(#[trigger] items[k].id)
                    == MenuActionView::SwitchProfile(profiles[k].uid) && items[k].label
                    == profiles[k].name
        }),
{
    lemma_menu_items_dispatch(mode, system_proxy_enabled, tun_mode_enabled, profiles, hotkeys);
    reveal_strlit("rule");
    reveal_strlit("global");
    reveal_strlit("direct");
    assert("rule"@[0] == 'r');
    assert("global"@[0] == 'g');
    assert("direct"@[0] == 'd');
    let m = spec_tray_menu(mode, system_proxy_enabled, tun_mode_enabled, profiles, hotkeys);
    assert(m.len() == 16);
    assert(entry_item(m[0]).label == "Dashboard"@);
    assert(entry_item(m[2]).label == "Rule Mode"@);
    assert(entry_item(m[3]).label == "Global Mode"@);
    assert(entry_item(m[4]).label == "Direct Mode"@);
    assert(entry_item(m[8]).label == "System Proxy"@);
    assert(entry_item(m[9]).label == "TUN Mode"@);
    assert(entry_item(m[11]).label == "Copy Env"@);
    assert(entry_item(m[13]).label == "\u{1f923}\u{91cd}\u{542f}\u{89e3}\u{5343}\u{6101}"@);
    assert(entry_item(m[15]).label == "Exit"@);
    assert(!(m[1] is Item) && !(m[5] is Item) && !(m[6] is Item) && !(m[7] is Item));
    assert(!(m[10] is Item) && !(m[12] is Item) && !(m[14] is Item));
    assert forall|k: int|
        0 <= k < m.len() && (#[trigger] m[k]) is Item implies entry_item(m[k]).label
            == action_label(spec_menu_action(entry_item(m[k]).id)) by {
        assert(k == 0 || k == 2 || k == 3 || k == 4 || k == 8 || k == 9 || k == 11 || k == 13
            || k == 15);
    }
}

/// The hotkey setting that names the function of an action, if it has one.
pub open spec fn action_hotkey_function(a: MenuActionView) -> Option<Seq<char>> {
    match a {
        MenuActionView::ChangeMode(m) => {
            if m == "rule"@ {
                Some("clash_mode_rule"@)
            } else if m == "global"@ {
                Some("clash_mode_global"@)
            } else if m == "direct"@ {
                Some("clash_mode_direct"@)
            } else {
                None
            }
        },
        MenuActionView::OpenWindow => Some("open_or_close_dashboard"@),
        MenuActionView::ToggleSystemProxy => Some("toggle_system_proxy"@),
        MenuActionView::ToggleTunMode => Some("toggle_tun_mode"@),
        _ => None,
    }
}

/// The accelerator shown beside each plain item is the key bound to that item's own
/// function: the item that switches to global mode shows the key of `clash_mode_global`,
/// the dashboard item the key of `open_or_close_dashboard`, and so on; items without a
/// hotkey function show none, except the quit item, which shows `CmdOrControl+Q`.
pub proof fn lemma_menu_accelerators(
    mode: Seq<char>,
    system_proxy_enabled: bool,
    tun_mode_enabled: bool,
    profiles: Seq<ProfileEntryView>,
    hotkeys: Map<Seq<char>, Seq<char>>,
)
    ensures
        ({
            let m = spec_tray_menu(mode, system_proxy_enabled, tun_mode_enabled, profiles, hotkeys);
            forall|k: int|
                0 <= k < m.len() && (#[trigger] m[k]) is Item ==> entry_item(m[k]).accelerator
                    == (match action_hotkey_function(spec_menu_action(entry_item(m[k]).id)) {
                    Some(f) => hotkey(hotkeys, f),
                    None => if spec_menu_action(entry_item(m[k]).id) is Quit {
                        Some("CmdOrControl+Q"@)
                    } else {
                        None
                    },
                })
        }),
{
    lemma_menu_items_dispatch(mode, system_proxy_enabled, tun_mode_enabled, profiles, hotkeys);
    reveal_strlit("rule");
    reveal_strlit("global");
    reveal_strlit("direct");
    assert("rule"@[0] == 'r');
    assert("global"@[0] == 'g');
    assert("direct"@[0] == 'd');
    let m = spec_tray_menu(mode, system_proxy_enabled, tun_mode_enabled, profiles, hotkeys);
    assert(m.len() == 16);
    assert(entry_item(m[0]).accelerator == hotkey(hotkeys, "open_or_close_dashboard"@));
    assert(entry_item(m[2]).accelerator == hotkey(hotkeys, "clash_mode_rule"@));
    assert(entry_item(m[3]).accelerator == hotkey(hotkeys, "clash_mode_global"@));
    assert(entry_item(m[4]).accelerator == hotkey(hotkeys, "clash_mode_direct"@));
    assert(entry_item(m[8]).accelerator == hotkey(hotkeys, "toggle_system_proxy"@));
    assert(entry_item(m[9]).accelerator == hotkey(hotkeys, "toggle_tun_mode"@));
    assert(entry_item(m[11]).accelerator is None);
    assert(entry_item(m[13]).accelerator is None);
    assert(entry_item(m[15]).accelerator == Some("CmdOrControl+Q"@));
    assert(!(m[1] is Item) && !(m[5] is Item) && !(m[6] is Item) && !(m[7] is Item));
    assert(!(m[10] is Item) && !(m[12] is Item) && !(m[14] is Item));
    assert forall|k: int| 0 <= k < m.len() && (#[trigger] m[k]) is Item implies entry_item(
        m[k],
    ).accelerator == (match action_hotkey_function(spec_menu_action(entry_item(m[k]).id)) {
        Some(f) => hotkey(hotkeys, f),
        None => if spec_menu_action(entry_item(m[k]).id) is Quit {
            Some("CmdOrControl+Q"@)
        } else {
            None
        },
    }) by {
        assert(k == 0 || k == 2 || k == 3 || k == 4 || k == 8 || k == 9 || k == 11 || k == 13
            || k == 15);
    }
}

} // verus!
