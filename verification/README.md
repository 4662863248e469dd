# learsim-glass, verified core

Library (`src/`, checked with Verus) behind three programs for glass
cockpit displays: the webview kiosk display, its LAN admin app and the
native SDL2 display. `app/` holds the programs' I/O around it.

- `text`, `json`: string operations and JSON values, modelled on `Seq<char>`.
- `config`: device, screen and configuration model; first-run defaults.
- `glassout`: settings readers and the glassout panel viewer URL.
- `views`, `native_views`: the view catalogues each display reports.
- `control`: the control API's state changes (update, add, delete a screen)
  and their laws.
- `reconcile`, `windows`: what each window shows, first-run provisioning.
- `frames`, `session`, `screen_view`: the native display's frame format,
  JPEG decoding, WebSocket session decisions and the messages they send,
  and drawing snapshot.
- `display`: the native render loop's per-frame decisions (scene, panel
  freshness, taps, quitting).
- `devices`, `admin`: the admin app's device store and request URLs.
