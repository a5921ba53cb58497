# clash_verge

The settings draft and the system tray of a proxy client, as a verified library.

- `src/draft.rs`: a value under edit (committed data and pending draft) with `apply`,
  `discard`, and laws on how they relate.
- `src/dispatch.rs`: what a menu item or a click on the tray icon asks for.
- `src/hotkeys.rs`: hotkey settings (`function,key`) read as a map, later settings winning.
- `src/tray_menu.rs`: the content of the tray menu.
- `src/tray_icon.rs`: which icon the tray shows, the icon digest and cache, and the cache
  of the traffic rate last drawn.
- `src/tooltip.rs`: the tooltip text.
- `src/traffic.rs`: the traffic subscription and the decisions of the task that follows it.
- `src/verge.rs`: the settings the tray reads, with their defaults.
- `src/laws.rs`: properties that span the menu and its event handler.
- `app/`: the tray drawn with tauri, the shared draft behind a lock, and the interface to
  the rest of the application.
