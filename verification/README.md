# sim_logic

The frame, input-routing and resource policy of a bounded simulation
presentation layer drawn with Sim;Engine, written in Verus. Every function in
`src/` carries a contract; Verus proves all of them except the few trusted
calls marked `#[verifier::external_body]`, whose contracts restate what the
called library documents.

## Layout

- `src/` — the verified library, one module per concern:
  - `font` — font registration under the count and total source-byte caps,
    with parsing by Sim;Engine;
  - `limits`, `identity`, `image`, `texture`, `text` — value types with their
    validation rules (frame and 3D caps, world generations and entities, image
    regions, immutable RGBA8 snapshots with revision identities and patches);
  - `screen`, `draw_plan`, `frame_work` — screen extraction: admission of
    rectangles, images and labels under caps, the painter-ordered merge into
    rectangle runs and single draws, and the frame-work preflight that charges
    each drawn asset once;
  - `three_d`, `slot`, `cache` — 3D admission and byte allowances, retained
    scene-slot updates that record only accepted fields, and keyed resource
    caches;
  - `pointer_button`, `capture`, `input`, `input_buffer` — the click state
    machine, pointer-capture bookkeeping, portable input values, and the
    bounded per-frame input queue with motion coalescing and sticky failure,
    with the held-key state that follows only accepted key events;
  - `desktop`, `timing`, `publication`, `text_cache` — the desktop loop's
    decisions (presentation, surface recovery, title validation, run
    counters), GPU timing correlation, double-buffered snapshot publication
    and the retained label cache;
  - `world`, `redraw` — world admission (the one-camera rule, per-kind and
    command caps, zero-length lines, painter order) and the desktop redraw as
    a state machine;
  - `crab` — the Ferris mascot: decoding its PNG through the `png` crate
    into checked 460 by 307 RGBA8 pixels, registered once per application;
  - `storage` — trusted calls whose results the allocator decides; the other
    trusted calls are the engine's default 3D budget in `three_d`, the PNG
    reads in `crab` and font parsing in `font`.
- `tests/` — executable tests of the library on concrete values.
- `app/` — unverified glue for the window system and the engine: key and
  button mapping, engine budget conversions, retained cuboid objects kept in
  step through the slot synchronisation, window configuration with
  floating-point sizes, cursor-grab calls, Ferris's floating-point
  on-screen size, the em-size check before font registration, and the
  floating-point flags of world sources before their admission.
