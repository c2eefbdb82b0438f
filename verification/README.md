# wtui

A terminal front end for NetworkManager, split into a verified library and a
thin program around it.

- `src/` is the library, verified with Verus:
  - `app.rs`: the model of networks and the user interface state, with the
    selection, QR pane, password dialog and speed test operations.
  - `control.rs`: what key presses and background events do to the state,
    which background work they start, and the status messages it reports.
  - `netlist.rs`: building the network list from the device and access
    point records the program reads over D-Bus: one entry per wired device
    and per SSID of each Wi-Fi device, display order, saved profiles by key.
  - `nm.rs`: NetworkManager decisions: security classification, password
    rules, new profile settings, connection steps, the wait for a connection
    change, profile UUIDs and the password prompt.
  - `qr.rs`: the `WIFI:` payload and the QR drawing in half-block cells.
  - `ui.rs`: the texts and colors of the screens, and what the QR pane shows.
  - `text.rs`: character-level string utilities.
- `app/` is the program: terminal handling, the event loop, the D-Bus calls
  (zbus) and the drawing (ratatui).
- `tests/` runs the library on concrete values.

Speed test readings are kept as fixed-point tenths, so the library holds no
floating-point value; the cloud animation, which needs floating point, is
drawn by the program.
