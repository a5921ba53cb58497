//! The content of the tray menu: its items, in order, with their ids, labels, check marks
//! and keyboard accelerators. Drawing it is the application's part.
use vstd::prelude::*;
use vstd::string::*;

use crate::hotkeys::HotkeyMap;
use crate::text::{owned, str_eq};
use crate::verge::{flag, IVerge};
use crate::hotkeys::{spec_hotkey_map, strings_view};

verus! {

/// One item of the tray menu.
#[derive(Debug, Clone)]
pub struct TrayMenuItem {
    /// The id that a menu event carries back.
    pub id: String,
    /// The label: a key of the translation table when `translate` holds, else the text itself.
    pub label: String,
    pub translate: bool,
    /// Whether the item carries a check mark, and whether it is set.
    pub checkable: bool,
    pub checked: bool,
    /// The keyboard accelerator shown beside the item.
    pub accelerator: Option<String>,
}

/// The mathematical form of a [`TrayMenuItem`].
pub struct TrayMenuItemView {
    pub id: Seq<char>,
    pub label: Seq<char>,
    pub translate: bool,
    pub checkable: bool,
    pub checked: bool,
    pub accelerator: Option<Seq<char>>,
}

pub open spec fn opt_string_view(s: Option<String>) -> Option<Seq<char>> {
    match s {
        Some(v) => Some(v@),
        None => None,
    }
}

impl View for TrayMenuItem {
    type V = TrayMenuItemView;

    open spec fn view(&self) -> TrayMenuItemView {
        TrayMenuItemView {
            id: self.id@,
            label: self.label@,
            translate: self.translate,
            checkable: self.checkable,
            checked: self.checked,
            accelerator: opt_string_view(self.accelerator),
        }
    }
}

/// One entry of the tray menu.
#[derive(Debug, Clone)]
pub enum TrayMenuEntry {
    Separator,
    Item(TrayMenuItem),
    /// The submenu of profiles.
    Submenu { id: String, label: String, items: Vec<TrayMenuItem> },
}

pub enum TrayMenuEntryView {
    Separator,
    Item(TrayMenuItemView),
    Submenu { id: Seq<char>, label: Seq<char>, items: Seq<TrayMenuItemView> },
}

pub open spec fn items_view(items: Seq<TrayMenuItem>) -> Seq<TrayMenuItemView> {
    items.map_values(|i: TrayMenuItem| i@)
}

impl View for TrayMenuEntry {
    type V = TrayMenuEntryView;

    open spec fn view(&self) -> TrayMenuEntryView {
        match self {
            TrayMenuEntry::Separator => TrayMenuEntryView::Separator,
            TrayMenuEntry::Item(i) => TrayMenuEntryView::Item(i@),
            TrayMenuEntry::Submenu { id, label, items } => TrayMenuEntryView::Submenu {
                id: id@,
                label: label@,
                items: items_view(items@),
            },
        }
    }
}

/// A profile as the menu lists it.
#[derive(Debug, Clone)]
pub struct ProfileEntry {
    pub uid: String,
    pub name: String,
    /// Whether it is the current profile.
    pub is_current: bool,
}

pub struct ProfileEntryView {
    pub uid: Seq<char>,
    pub name: Seq<char>,
    pub is_current: bool,
}

impl View for ProfileEntry {
    type V = ProfileEntryView;

    open spec fn view(&self) -> ProfileEntryView {
        ProfileEntryView { uid: self.uid@, name: self.name@, is_current: self.is_current }
    }
}

pub open spec fn profiles_view(profiles: Seq<ProfileEntry>) -> Seq<ProfileEntryView> {
    profiles.map_values(|p: ProfileEntry| p@)
}

/// The label of the restart item, which is not translated.
pub open spec fn restart_label() -> Seq<char> {
    "\u{1f923}\u{91cd}\u{542f}\u{89e3}\u{5343}\u{6101}"@
}

/// The accelerator of the quit item.
pub open spec fn quit_accelerator() -> Seq<char> {
    "CmdOrControl+Q"@
}

pub open spec fn spec_item(
    id: Seq<char>,
    label: Seq<char>,
    translate: bool,
    checkable: bool,
    checked: bool,
    accelerator: Option<Seq<char>>,
) -> TrayMenuItemView {
    TrayMenuItemView { id, label, translate, checkable, checked, accelerator }
}

/// The key bound to `function` in `hotkeys`, if any.
pub open spec fn hotkey(hotkeys: Map<Seq<char>, Seq<char>>, function: Seq<char>) -> Option<
    Seq<char>,
> {
    if hotkeys.contains_key(function) {
        Some(hotkeys[function])
    } else {
        None
    }
}

/// The menu item of a profile: its id is `profiles_` followed by its uid.
pub open spec fn spec_profile_item(p: ProfileEntryView) -> TrayMenuItemView {
    spec_item("profiles_"@ + p.uid, p.name, true, true, p.is_current, None)
}

/// The tray menu, entry by entry.
pub open spec fn spec_tray_menu(
    mode: Seq<char>,
    system_proxy_enabled: bool,
    tun_mode_enabled: bool,
    profiles: Seq<ProfileEntryView>,
    hotkeys: Map<Seq<char>, Seq<char>>,
) -> Seq<TrayMenuEntryView> {
    seq![
        TrayMenuEntryView::Item(spec_item("open_window"@, "Dashboard"@, true, false, false,
            hotkey(hotkeys, "open_or_close_dashboard"@))),
        TrayMenuEntryView::Separator,
        TrayMenuEntryView::Item(spec_item("rule_mode"@, "Rule Mode"@, true, true,
            mode == "rule"@, hotkey(hotkeys, "clash_mode_rule"@))),
        TrayMenuEntryView::Item(spec_item("global_mode"@, "Global Mode"@, true, true,
            mode == "global"@, hotkey(hotkeys, "clash_mode_global"@))),
        TrayMenuEntryView::Item(spec_item("direct_mode"@, "Direct Mode"@, true, true,
            mode == "direct"@, hotkey(hotkeys, "clash_mode_direct"@))),
        TrayMenuEntryView::Separator,
        TrayMenuEntryView::Submenu {
            id: "profiles"@,
            label: "Profiles"@,
            items: profiles.map_values(|p: ProfileEntryView| spec_profile_item(p)),
        },
        TrayMenuEntryView::Separator,
        TrayMenuEntryView::Item(spec_item("system_proxy"@, "System Proxy"@, true, true,
            system_proxy_enabled, hotkey(hotkeys, "toggle_system_proxy"@))),
        TrayMenuEntryView::Item(spec_item("tun_mode"@, "TUN Mode"@, true, true,
            tun_mode_enabled, hotkey(hotkeys, "toggle_tun_mode"@))),
        TrayMenuEntryView::Separator,
        TrayMenuEntryView::Item(spec_item("copy_env"@, "Copy Env"@, true, false, false, None)),
        TrayMenuEntryView::Separator,
        TrayMenuEntryView::Item(spec_item("restart_all"@, restart_label(), false, false, false,
            None)),
        TrayMenuEntryView::Separator,
        TrayMenuEntryView::Item(spec_item("quit"@, "Exit"@, true, false, false,
            Some(quit_accelerator()))),
    ]
}

fn item(
    id: &str,
    label: &str,
    translate: bool,
    checkable: bool,
    checked: bool,
    accelerator: Option<String>,
) -> (r: TrayMenuItem)
    ensures
        r@ == spec_item(id@, label@, translate, checkable, checked, opt_string_view(accelerator)),
{
    TrayMenuItem { id: owned(id), label: owned(label), translate, checkable, checked, accelerator }
}

fn hotkey_item(
    id: &str,
    label: &str,
    checked: bool,
    hotkeys: &HotkeyMap,
    function: &str,
) -> (r: TrayMenuItem)
    ensures
        r@ == spec_item(id@, label@, true, true, checked, hotkey(hotkeys@, function@)),
{
    let accelerator = hotkeys.get(function);
    item(id, label, true, true, checked, accelerator)
}

/// The items of the profile submenu, one per profile in the given order.
pub fn profile_items(profiles: &Vec<ProfileEntry>) -> (r: Vec<TrayMenuItem>)
    ensures
        items_view(r@) == profiles_view(profiles@).map_values(
            |p: ProfileEntryView| spec_profile_item(p),
        ),
{
    let mut r: Vec<TrayMenuItem> = Vec::new();
    let n: usize = profiles.len();
    let mut i: usize = 0;
    while i < n
        invariant
            i <= n,
            n == profiles@.len(),
            r@.len() == i,
            forall|k: int| 0 <= k < i ==> #[trigger] r@[k]@ == spec_profile_item(profiles@[k]@),
        decreases n - i,
    {
        let p = &profiles[i];
        let id = owned("profiles_").concat(p.uid.as_str());
        r.push(
            TrayMenuItem {
                id,
                label: p.name.clone(),
                translate: true,
                checkable: true,
                checked: p.is_current,
                accelerator: None,
            },
        );
        i = i + 1;
    }
    assert(items_view(r@) =~= profiles_view(profiles@).map_values(
        |p: ProfileEntryView| spec_profile_item(p),
    ));
    r
}

/// The tray menu for the given proxy mode, switch states, profiles and hotkeys.
pub fn create_tray_menu(
    mode: &str,
    system_proxy_enabled: bool,
    tun_mode_enabled: bool,
    profiles: &Vec<ProfileEntry>,
    hotkeys: &HotkeyMap,
) -> (r: Vec<TrayMenuEntry>)
    ensures
        r@.map_values(|e: TrayMenuEntry| e@) == spec_tray_menu(
            mode@,
            system_proxy_enabled,
            tun_mode_enabled,
            profiles_view(profiles@),
            hotkeys@,
        ),
{
    let mut r: Vec<TrayMenuEntry> = Vec::new();
    let open_window = item(
        "open_window",
        "Dashboard",
        true,
        false,
        false,
        hotkeys.get("open_or_close_dashboard"),
    );
    r.push(TrayMenuEntry::Item(open_window));
    r.push(TrayMenuEntry::Separator);
    let is_rule = str_eq(mode, "rule");
    r.push(TrayMenuEntry::Item(hotkey_item("rule_mode", "Rule Mode", is_rule, hotkeys, "clash_mode_rule")));
    let is_global = str_eq(mode, "global");
    r.push(
        TrayMenuEntry::Item(
            hotkey_item("global_mode", "Global Mode", is_global, hotkeys, "clash_mode_global"),
        ),
    );
    let is_direct = str_eq(mode, "direct");
    r.push(
        TrayMenuEntry::Item(
            hotkey_item("direct_mode", "Direct Mode", is_direct, hotkeys, "clash_mode_direct"),
        ),
    );
    r.push(TrayMenuEntry::Separator);
    let items = profile_items(profiles);
    r.push(TrayMenuEntry::Submenu { id: owned("profiles"), label: owned("Profiles"), items });
    r.push(TrayMenuEntry::Separator);
    r.push(
        TrayMenuEntry::Item(
            hotkey_item(
                "system_proxy",
                "System Proxy",
                system_proxy_enabled,
                hotkeys,
                "toggle_system_proxy",
            ),
        ),
    );
    r.push(
        TrayMenuEntry::Item(
            hotkey_item("tun_mode", "TUN Mode", tun_mode_enabled, hotkeys, "toggle_tun_mode"),
        ),
    );
    r.push(TrayMenuEntry::Separator);
    r.push(TrayMenuEntry::Item(item("copy_env", "Copy Env", true, false, false, None)));
    r.push(TrayMenuEntry::Separator);
    r.push(
        TrayMenuEntry::Item(
            item(
                "restart_all",
                "\u{1f923}\u{91cd}\u{542f}\u{89e3}\u{5343}\u{6101}",
                false,
                false,
                false,
                None,
            ),
        ),
    );
    r.push(TrayMenuEntry::Separator);
    r.push(TrayMenuEntry::Item(item("quit", "Exit", true, false, false, Some(owned("CmdOrControl+Q")))));
    assert(r@.map_values(|e: TrayMenuEntry| e@) =~= spec_tray_menu(
        mode@,
        system_proxy_enabled,
        tun_mode_enabled,
        profiles_view(profiles@),
        hotkeys@,
    ));
    r
}

/// The proxy mode named in the core's settings: the `mode` entry when it is a string,
/// `rule` otherwise. `entry` is the `mode` entry if present, with its text if it is a string.
pub open spec fn spec_clash_mode(entry: Option<Option<Seq<char>>>) -> Seq<char> {
    match entry {
        Some(Some(m)) => m,
        _ => "rule"@,
    }
}

/// The proxy mode named in the core's settings.
pub fn clash_mode(entry: Option<Option<String>>) -> (r: String)
    ensures
        r@ == spec_clash_mode(
            match entry {
                Some(Some(m)) => Some(Some(m@)),
                Some(None) => Some(None),
                None => None,
            },
        ),
{
    match entry {
        Some(Some(m)) => m,
        _ => owned("rule"),
    }
}

/// The hotkeys that the settings bind.
pub open spec fn spec_verge_hotkeys(verge: IVerge) -> Map<Seq<char>, Seq<char>> {
    match verge.hotkeys {
        Some(v) => spec_hotkey_map(strings_view(v@)),
        None => Map::empty(),
    }
}

/// The tray menu for the settings `verge`, the `mode` entry of the core's settings, and
/// the profiles.
pub fn update_menu(verge: &IVerge, mode_entry: Option<Option<String>>, profiles: &Vec<ProfileEntry>) -> (r: Vec<TrayMenuEntry>)
    ensures
        r@.map_values(|e: TrayMenuEntry| e@) == spec_tray_menu(
            spec_clash_mode(
                match mode_entry {
                    Some(Some(m)) => Some(Some(m@)),
                    Some(None) => Some(None),
                    None => None,
                },
            ),
            flag(verge.enable_system_proxy, false),
            flag(verge.enable_tun_mode, false),
            profiles_view(profiles@),
            spec_verge_hotkeys(*verge),
        ),
{
    let mode = clash_mode(mode_entry);
    let hotkeys = verge.tray_hotkeys();
    create_tray_menu(
        mode.as_str(),
        verge.system_proxy_enabled(),
        verge.tun_mode_enabled(),
        profiles,
        &hotkeys,
    )
}

} // verus!
