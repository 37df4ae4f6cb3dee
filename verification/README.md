# virtuoso_cli

A command-line bridge to Cadence Virtuoso: it sends SKILL code to a small
daemon inside Virtuoso (directly or through an SSH tunnel) and drives
schematics, layouts, Ocean simulations and Maestro sessions. The library
also holds the state and key handling of a terminal dashboard.

## Layout

- `src/` is the library, verified with Verus. It holds everything the tool
  decides or computes: the SKILL code it generates (with escaping proved to
  read back), the daemon's request and reply format, configuration and
  `.env` handling, the simulation and Maestro flows as state machines that
  take each reply and name the next call, schematic builds from a spec,
  the dashboard's key handling and overlay geometry, and job bookkeeping.
  Calls into `serde_json`, `shlex` and `unicode-width` sit behind small
  trusted wrappers whose contracts say what the library relies on.
- `app/` is the `vcli` program around it: argument parsing, the TCP and
  SSH plumbing, files on disk and printing. It hands the library plain
  values and prints what comes back; the gm/Id characterisation and sizing
  commands, which work on floating-point device data, live there too, as
  do the dashboard's event loop and drawing (`app/tui.rs`).
- `tests/` exercises the library on concrete values.
