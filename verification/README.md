# MyWallpaper Desktop

A tray application that shows an animated wallpaper behind the desktop icons. The rules behind it
are a library that is verified with Verus; the platform is around it.

- `src/` is the library. It works on plain values: window handles, screen points, bytes and text go
  in, and what has to happen on the platform comes out as a value. Every function states what it
  returns, and the laws that relate several of them stand beside them as proofs.
- `app/` is the application: Tauri, the window hooks, file access and the network. It asks the
  platform what the library wants to know, and does what the library says.
- `tests/` runs the library on concrete values.

| Module | What it decides |
|---|---|
| `commands`, `commands_core` | addresses, versions, deep links and categories that are accepted |
| `updater` | the way of an update from its lookup to its installation |
| `system_monitor` | what a reading of the system is made of, and when one is taken |
| `desktop_clone` | the user's own wallpaper and desktop icons |
| `window_layer` | the window behind the icons, and the mouse and keyboard hooks |
| `mouse_leave` | leave messages inside the browser process |
| `startup`, `discord` | old logs, the page's heartbeat, the presence in the chat client |
| `text`, `file_name`, `percent` | text taken apart |
| `outside`, `platform_text` | calls into other libraries, with what is believed of them |
