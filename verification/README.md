# MilkyWM

A Wayland compositor with a cosmic space metaphor: each workspace is a solar
system whose sun is the focused window and whose planets are the other
windows, on orbit rings. Workspaces stand in a row on an infinite canvas; an
orbital switcher zooms out to pick a planet (System view) or a workspace
(Galaxy view).

## Layout

- `src/` — the library, verified with Verus: tiling geometry, workspaces and
  orbit rings, the switcher state machine and its camera targets, the
  keyboard, pointer and IPC decisions, the `milkyctl` command line, backend
  and output choices, socket and configuration paths, the starfield
  generator and the thumbnail bookkeeping. Each public function states what
  it returns or changes; the laws that span functions are public proof
  functions.
- `app/` — the program around it: smithay protocol handlers, the winit and
  DRM backends, GL rendering, the floating-point camera and planet
  animation, configuration loading and hot reload, the IPC socket, and the
  `milkyctl` client (run when the binary is invoked under that name).
- `tests/` — tests of the library on concrete values.

Verify with Verus on `src/lib.rs`; the tests run against the compiled
library.
