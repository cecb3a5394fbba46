# mochiwm

The decision logic of a small tiling window manager for Windows, verified
with Verus.

- `src/layout.rs` — the four layouts (master and stack, grid, horizontal
  strips, vertical columns), their exact `i32` bounds, and proofs that tiles
  do not overlap.
- `src/bounds.rs` — executable checks of those bounds.
- `src/config.rs` — the settings and their defaults.
- `src/keys.rs` — key and modifier names and their Win32 codes.
- `src/wm.rs` — the manager's state: workspaces, focus, tiling, hotkeys,
  full screen; each operation answers what the program is to do.
- `src/wm_laws.rs` — what holds across operations.
- `app/` — the program: the settings file (TOML), and the Win32 message
  loop that carries out the manager's answers. It builds for Windows only.
