//! The settings draft and the system tray of a proxy client: what the tray shows, what its
//! events ask for, and how a pending edit of the settings becomes the settings.
pub mod dispatch;
pub mod draft;
pub mod hotkeys;
pub mod laws;
pub mod text;
pub mod tooltip;
pub mod traffic;
pub mod tray_icon;
pub mod tray_menu;
pub mod verge;
