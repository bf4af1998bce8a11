# purgatory_client

Client-side rules of the PURGATORY game client, written in Verus: every
function in `src/` carries a contract that Verus proves, and the properties
that span several calls are stated as proof functions (`lemma_*`).

## Layout

- `src/` — the verified library.
  - `lifecycle.rs`, `network.rs` — connection lifecycle: which screen shows,
    which events are stale, the bounded event history.
  - `frontend.rs` — login / character select / creation flow, text fields and
    the frontend stage machine.
  - `input.rs` — key mapping and held-action state.
  - `display.rs` — resolutions, render scale, surface and window requests.
  - `map_fade.rs` — map and membership transitions: fade phases, readiness,
    stall reporting, input lock.
  - `dialogue.rs` — NPC dialogue projection and choice selection.
  - `interp.rs`, `interp_history.rs` — remote interpolation: distinct-pose
    spans and the bounded, tick-ordered snapshot history.
  - `interact.rs`, `headwear.rs`, `jitter.rs`, `ids.rs`, `text.rs` — smaller
    rules and exact string building.
  - `debug/` — debug overlay policy: command queue and tuning cadence,
    persistent warnings, sections, inspector rows, AOI labels, capture
    routing, collision history, agent-log throttling.
- `tests/` — executable tests of the library.
- `app/` — the program around it: `main`, clocks, float maths, window key
  codes and file output. Floats and the clock stay here and reach the
  library as plain values.

## Checking

Verification runs Verus on `src/lib.rs`; the tests run with the outside
crates linked.
