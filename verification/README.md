# slipway

Verified debug evidence for Slipway desktop backends: the bounded debug
bridge between a debug client and the app runtime, the debug MCP server and
its seven tools, presented screenshot admission and validation, visible frame
timing, the CPU debug renderer's artifact bookkeeping, and the pure decisions
of the iced native runner.

## Layout

- `src/` is the library, written in Verus. Every function carries a
  `requires`/`ensures` contract over mathematical models (JSON trees,
  sequences, character sequences), and the cross-function properties are
  public proof functions (`lemma_*`).
  - `frame`, `evidence`, `input`, `command`, `reply`, `screenshot`: the data
    model and the checks a reply must pass against its command.
  - `json`, `json_text`, `rpc`, `params`, `event_params`, `tool_params`: JSON
    values, their compact text, and the parsers of tool arguments.
  - `payload`, `summary`, `products`, `schema`: the JSON payloads of replies,
    refusals and the tool list.
  - `server`, `dispatch`, `begin`, `transport`, `mcp`: the MCP server, answered
    directly or begun on the bridge and finished later.
  - `bridge`: the crossbeam-backed bounded bridge.
  - `timing`, `report`, `sort`: visible frame timing and its text report.
  - `renderer`: pixel hashes, artifact references, comparison and the
    artifact store.
  - `iced`, `capture`, `native`, `trace`: redraw, presentation, capture,
    coalescing and native-input decisions, and control traces.
- `tests/`: the test suite, run against the compiled library.
- `app/`: the I/O around the library — JSON text through `serde_json`, the
  stdio loops, PNG artifacts on disk, timing files, and the floating-point
  blending and event text.

## What is not here

The iced native runner itself (the winit event loop, window creation, iced's
`UserInterface` build/update/draw, wgpu presentation and surface readback) is
not part of this crate. It drives iced, iced_winit, winit and wgpu, and its
state lives in the Slipway runtime and core crates, none of which are
dependencies here. What that runner decides is in `src/` as plain functions
over plain values: redraw requests, re-ticks, present outcomes and error
recovery, capture reduction, ingress coalescing and slicing, window input
state, composition eligibility and native event plans. The floating-point
rasterizer and font loading of the CPU debug renderer are likewise left out;
its integer bookkeeping is in `src/renderer.rs`.
