//! What the tray does when one of its menu items is chosen, or when its icon is clicked.
use vstd::prelude::*;
use vstd::string::*;

use crate::text::{has_prefix, owned, starts_with, str_eq};

verus! {

/// The work that a chosen menu item asks of the application.
#[derive(Debug, Clone, PartialEq, Eq)]
pub enum MenuAction {
    /// Switch the proxy core to the named mode (`rule`, `global` or `direct`).
    ChangeMode(String),
    /// Open the dashboard window.
    OpenWindow,
    /// Turn the system proxy on or off.
    ToggleSystemProxy,
    /// Turn TUN mode on or off.
    ToggleTunMode,
    /// Copy the proxy environment variables to the clipboard.
    CopyEnv,
    /// Restart the proxy core, then the application.
    RestartAll,
    /// Quit the application with the given exit code.
    Quit(i32),
    /// Make the profile with the given uid the current one.
    SwitchProfile(String),
    /// An id that the tray does not know: nothing happens.
    Ignore,
}

/// The mathematical form of a [`MenuAction`].
pub enum MenuActionView {
    ChangeMode(Seq<char>),
    OpenWindow,
    ToggleSystemProxy,
    ToggleTunMode,
    CopyEnv,
    RestartAll,
    Quit(i32),
    SwitchProfile(Seq<char>),
    Ignore,
}

impl View for MenuAction {
    type V = MenuActionView;

    open spec fn view(&self) -> MenuActionView {
        match self {
            MenuAction::ChangeMode(m) => MenuActionView::ChangeMode(m@),
            MenuAction::OpenWindow => MenuActionView::OpenWindow,
            MenuAction::ToggleSystemProxy => MenuActionView::ToggleSystemProxy,
            MenuAction::ToggleTunMode => MenuActionView::ToggleTunMode,
            MenuAction::CopyEnv => MenuActionView::CopyEnv,
            MenuAction::RestartAll => MenuActionView::RestartAll,
            MenuAction::Quit(code) => MenuActionView::Quit(*code),
            MenuAction::SwitchProfile(uid) => MenuActionView::SwitchProfile(uid@),
            MenuAction::Ignore => MenuActionView::Ignore,
        }
    }
}

/// The prefix of the id of every profile item of the tray menu.
pub open spec fn profile_id_prefix() -> Seq<char> {
    "profiles_"@
}

/// The action that the menu item with id `id` stands for.
pub open spec fn spec_menu_action(id: Seq<char>) -> MenuActionView {
    if id == "rule_mode"@ {
        MenuActionView::ChangeMode("rule"@)
    } else if id == "global_mode"@ {
        MenuActionView::ChangeMode("global"@)
    } else if id == "direct_mode"@ {
        MenuActionView::ChangeMode("direct"@)
    } else if id == "open_window"@ {
        MenuActionView::OpenWindow
    } else if id == "system_proxy"@ {
        MenuActionView::ToggleSystemProxy
    } else if id == "tun_mode"@ {
        MenuActionView::ToggleTunMode
    } else if id == "copy_env"@ {
        MenuActionView::CopyEnv
    } else if id == "restart_all"@ {
        MenuActionView::RestartAll
    } else if id == "quit"@ {
        MenuActionView::Quit(0)
    } else if has_prefix(id, profile_id_prefix()) {
        MenuActionView::SwitchProfile(id.subrange(profile_id_prefix().len() as int, id.len() as int))
    } else {
        MenuActionView::Ignore
    }
}

/// Decides what a menu event with the given item id asks for.
pub fn on_menu_event(id: &str) -> (r: MenuAction)
    ensures
        r@ == spec_menu_action(id@),
{
    if str_eq(id, "rule_mode") {
        MenuAction::ChangeMode(owned("rule"))
    } else if str_eq(id, "global_mode") {
        MenuAction::ChangeMode(owned("global"))
    } else if str_eq(id, "direct_mode") {
        MenuAction::ChangeMode(owned("direct"))
    } else if str_eq(id, "open_window") {
        MenuAction::OpenWindow
    } else if str_eq(id, "system_proxy") {
        MenuAction::ToggleSystemProxy
    } else if str_eq(id, "tun_mode") {
        MenuAction::ToggleTunMode
    } else if str_eq(id, "copy_env") {
        MenuAction::CopyEnv
    } else if str_eq(id, "restart_all") {
        MenuAction::RestartAll
    } else if str_eq(id, "quit") {
        MenuAction::Quit(0)
    } else if starts_with(id, "profiles_") {
        proof {
            reveal_strlit("profiles_");
        }
        let n: usize = id.unicode_len();
        let uid = id.substring_char(9, n);
        MenuAction::SwitchProfile(owned(uid))
    } else {
        MenuAction::Ignore
    }
}

/// What a click on the tray icon asks of the application.
#[derive(Debug, Clone, Copy, PartialEq, Eq)]
pub enum ClickAction {
    ToggleSystemProxy,
    ToggleTunMode,
    OpenWindow,
    Ignore,
}

/// The click behaviour configured when none is set.
pub open spec fn default_tray_event() -> Seq<char> {
    "main_window"@
}

/// The configured click behaviour, or the default one when none is set.
pub open spec fn spec_tray_event(configured: Option<Seq<char>>) -> Seq<char> {
    match configured {
        Some(e) => e,
        None => default_tray_event(),
    }
}

/// The configured click behaviour of the tray icon, `main_window` when none is set.
pub fn resolve_tray_event(configured: &Option<String>) -> (r: String)
    ensures
        r@ == spec_tray_event(
            match configured {
                Some(e) => Some(e@),
                None => None,
            },
        ),
{
    match configured {
        Some(e) => e.clone(),
        None => owned("main_window"),
    }
}

/// What a click on the tray icon does under the click behaviour `tray_event`.
pub open spec fn spec_click_action(tray_event: Seq<char>, left_button_down: bool) -> ClickAction {
    if !left_button_down {
        ClickAction::Ignore
    } else if tray_event == "system_proxy"@ {
        ClickAction::ToggleSystemProxy
    } else if tray_event == "tun_mode"@ {
        ClickAction::ToggleTunMode
    } else if tray_event == "main_window"@ {
        ClickAction::OpenWindow
    } else {
        ClickAction::Ignore
    }
}

/// Decides what a tray icon event does: only the press of the left button acts.
pub fn on_tray_click(tray_event: &str, left_button_down: bool) -> (r: ClickAction)
    ensures
        r == spec_click_action(tray_event@, left_button_down),
{
    if !left_button_down {
        ClickAction::Ignore
    } else if str_eq(tray_event, "system_proxy") {
        ClickAction::ToggleSystemProxy
    } else if str_eq(tray_event, "tun_mode") {
        ClickAction::ToggleTunMode
    } else if str_eq(tray_event, "main_window") {
        ClickAction::OpenWindow
    } else {
        ClickAction::Ignore
    }
}

/// Whether a left click opens the tray menu under the click behaviour `tray_event`.
pub open spec fn spec_menu_on_left_click(tray_event: Seq<char>) -> bool {
    tray_event == "tray_menu"@
}

/// Whether a left click on the tray icon shows the menu: only under `tray_menu`.
pub fn update_click_behavior(tray_event: &str) -> (r: bool)
    ensures
        r == spec_menu_on_left_click(tray_event@),
{
    str_eq(tray_event, "tray_menu")
}

/// The left-click behaviour set when the tray is created, where the platform lets it be
/// set: the menu is turned off unless the click behaviour is `tray_menu`, in which case the
/// platform default stays (nothing is set).
pub open spec fn spec_initial_menu_on_left_click(tray_event: Seq<char>) -> Option<bool> {
    if tray_event == "tray_menu"@ {
        None
    } else {
        Some(false)
    }
}

/// The left-click behaviour to set when the tray is created: `None` keeps the default.
pub fn initial_menu_on_left_click(tray_event: &str) -> (r: Option<bool>)
    ensures
        r == spec_initial_menu_on_left_click(tray_event@),
{
    if str_eq(tray_event, "tray_menu") {
        None
    } else {
        Some(false)
    }
}

/// What the tray sets at creation agrees with what it sets when the click behaviour is
/// updated later.
pub proof fn lemma_click_behavior_agrees(tray_event: Seq<char>)
    ensures
        spec_initial_menu_on_left_click(tray_event) matches Some(b) ==> b == spec_menu_on_left_click(
            tray_event,
        ),
{
}

/// Only a press of the left button acts: any other event on the icon (a release, another
/// button, the pointer passing over it) does nothing, whatever the click behaviour. A press
/// toggles the system proxy exactly under `system_proxy`, TUN mode exactly under
/// `tun_mode`, and opens the window exactly under `main_window`.
pub proof fn lemma_click_needs_left_press(tray_event: Seq<char>, left_button_down: bool)
    ensures
        !left_button_down ==> spec_click_action(tray_event, left_button_down) == ClickAction::Ignore,
        (spec_click_action(tray_event, left_button_down) == ClickAction::ToggleSystemProxy) <==> (
        left_button_down && tray_event == "system_proxy"@),
        (spec_click_action(tray_event, left_button_down) == ClickAction::ToggleTunMode) <==> (
        left_button_down && tray_event == "tun_mode"@),
        (spec_click_action(tray_event, left_button_down) == ClickAction::OpenWindow) <==> (
        left_button_down && tray_event == "main_window"@),
{
    reveal_strlit("system_proxy");
    reveal_strlit("tun_mode");
    reveal_strlit("main_window");
    assert("system_proxy"@[0] == 's');
    assert("tun_mode"@[0] == 't');
    assert("main_window"@[0] == 'm');
}

} // verus!
