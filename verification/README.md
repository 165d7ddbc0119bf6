# wayle

Desktop services for Linux shells — a notification daemon (freedesktop, GTK and portal
backends), a StatusNotifier system tray, compositor bindings for niri and Triad, an XDG
portal backend host and GPU metrics — with their logic verified by Verus.

## Layout

- `src/` — the verified library: the logic of the services, each function with a
  contract. It translates each notification protocol into one model, keeps the wire-id and
  key registries, plans action dispatch, handles each event of the daemon's loop (history,
  popup and removal rules, with the store writes, timers and close-back signals they call
  for, in order), holds the persistence form, decodes hints and GVariants, re-packs images
  for the cache, writes the portal manifest, runs the tray registrar and item lifecycle,
  decodes compositor JSON lines and checks their events, and takes the GPU poller's step.
  Laws that span several functions are public proof functions named `law_*`.
- `app/` — the I/O around it: D-Bus daemons and proxies, the SQLite store (with the D-Bus
  wire encoding of stored action targets, done by `zvariant`), cache files, compositor
  sockets (niri's events are parsed into `niri-ipc`'s own types, whose state tracking needs
  them whole) and the asynchronous loops that receive events, ask the library what to do
  and carry it out.
- `tests/` — tests of the library on concrete values.

Calls into outside crates that the logic needs (glob matching, PNG encoding, JSON
parsing) sit behind small trusted wrappers whose contracts are documented at each.
