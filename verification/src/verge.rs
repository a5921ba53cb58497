//! The application settings that the tray reads, and the defaults that stand for a setting
//! that is not set.
use vstd::prelude::*;

use crate::dispatch::{resolve_tray_event, spec_tray_event};
use crate::hotkeys::{spec_hotkey_map, strings_view, HotkeyMap};
use crate::text::str_eq;
use crate::tray_menu::opt_string_view;

verus! {

/// The application settings. Each is optional: a missing one takes its default.
#[derive(Debug, Clone, Default)]
pub struct IVerge {
    pub enable_auto_launch: Option<bool>,
    pub enable_system_proxy: Option<bool>,
    pub enable_tun_mode: Option<bool>,
    /// What a left click on the tray icon does: `main_window`, `tray_menu`,
    /// `system_proxy`, `tun_mode` (default `main_window`).
    pub tray_event: Option<String>,
    /// The style of the bundled tray icons: `colorful` or `monochrome` (default).
    pub tray_icon: Option<String>,
    /// Whether the user's own icon replaces the bundled one, for each state of the proxy.
    pub common_tray_icon: Option<bool>,
    pub sysproxy_tray_icon: Option<bool>,
    pub tun_tray_icon: Option<bool>,
    /// Whether the tray shows the traffic rate, and the icon beside it (both default on).
    pub enable_tray_speed: Option<bool>,
    pub enable_tray_icon: Option<bool>,
    /// Hotkey settings, each `function,key`.
    pub hotkeys: Option<Vec<String>>,
}

pub open spec fn flag(setting: Option<bool>, default: bool) -> bool {
    match setting {
        Some(b) => b,
        None => default,
    }
}

impl IVerge {
    /// Whether the system proxy is on (off when not set).
    pub fn system_proxy_enabled(&self) -> (r: bool)
        ensures
            r == flag(self.enable_system_proxy, false),
    {
        self.enable_system_proxy.unwrap_or(false)
    }

    /// Whether TUN mode is on (off when not set).
    pub fn tun_mode_enabled(&self) -> (r: bool)
        ensures
            r == flag(self.enable_tun_mode, false),
    {
        self.enable_tun_mode.unwrap_or(false)
    }

    /// Whether the custom icon is used while neither proxy switch selects another one.
    pub fn common_icon_custom(&self) -> (r: bool)
        ensures
            r == flag(self.common_tray_icon, false),
    {
        self.common_tray_icon.unwrap_or(false)
    }

    /// Whether the custom icon is used while the system proxy is on.
    pub fn sysproxy_icon_custom(&self) -> (r: bool)
        ensures
            r == flag(self.sysproxy_tray_icon, false),
    {
        self.sysproxy_tray_icon.unwrap_or(false)
    }

    /// Whether the custom icon is used while TUN mode is on.
    pub fn tun_icon_custom(&self) -> (r: bool)
        ensures
            r == flag(self.tun_tray_icon, false),
    {
        self.tun_tray_icon.unwrap_or(false)
    }

    /// Whether the tray shows the traffic rate (on when not set).
    pub fn tray_speed_enabled(&self) -> (r: bool)
        ensures
            r == flag(self.enable_tray_speed, true),
    {
        self.enable_tray_speed.unwrap_or(true)
    }

    /// Whether the icon is drawn beside the traffic rate (on when not set).
    pub fn tray_icon_enabled(&self) -> (r: bool)
        ensures
            r == flag(self.enable_tray_icon, true),
    {
        self.enable_tray_icon.unwrap_or(true)
    }

    /// Whether the bundled icons are drawn in colour: only under the `colorful` style.
    pub fn colorful_icon(&self) -> (r: bool)
        ensures
            r == (opt_string_view(self.tray_icon) == Some("colorful"@)),
    {
        match &self.tray_icon {
            Some(style) => str_eq(style.as_str(), "colorful"),
            None => {
                proof {
                    reveal_strlit("colorful");
                    reveal_strlit("monochrome");
                    assert("colorful"@.len() != "monochrome"@.len());
                }
                false
            },
        }
    }

    /// What a left click on the tray icon does (`main_window` when not set).
    pub fn click_behavior(&self) -> (r: String)
        ensures
            r@ == spec_tray_event(opt_string_view(self.tray_event)),
    {
        resolve_tray_event(&self.tray_event)
    }

    /// The hotkeys of the tray menu.
    pub fn tray_hotkeys(&self) -> (r: HotkeyMap)
        ensures
            r@ == (match self.hotkeys {
                Some(v) => spec_hotkey_map(strings_view(v@)),
                None => Map::empty(),
            }),
    {
        HotkeyMap::from_optional_settings(&self.hotkeys)
    }
}

} // verus!
