# graviton

A terminal N-body gravitational simulator: TOML scenarios, NASA JPL HORIZONS
ephemeris data, RK4 integration and a ratatui interface.

The crate is a Verus project. `src/` is the verified library: everything the
program decides without floating point, each function with a contract that
Verus proves. `app/` is the program around it: the command line, terminal I/O,
networking, files, and the floating-point physics and drawing.

## Layout

- `src/text.rs` — character-level helpers: splitting, trimming, searching,
  ASCII case, decimal parsing and formatting.
- `src/error.rs` — error enums and the message each one reports.
- `src/scenario/` — hex colors, the checks a scenario file must pass
  (`validate`), unit and class resolution in loading order (`plan_load`),
  and the asteroid-belt generator.
- `src/horizons/` — HORIZONS dates, query URLs, cache paths, reply screening,
  vector-table location and the plan of a `fetch` run.
- `src/render/` — colors, trails, the heatmap cache, the glyph canvas with its
  priority rule, HUD text and screen geometry.
- `src/input/` — keyboard and mouse bindings.
- `src/app.rs` — the interactive session's state machine: what each command
  does to the view and what the simulation loop must perform.
- `src/time/scheduler.rs` — the per-frame physics step budget.
- `src/physics/` — body classes, the integrator tag and Barnes-Hut tree shape.
- `src/bench.rs` — which benchmarks a filter selects.
- `tests/` — tests of the library on concrete values.
- `app/` — the `graviton` program.
