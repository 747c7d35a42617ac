# acuneus

The host-side control logic of the Acuneus shader runner, written in Verus
and verified: everything a running shader decides on the CPU, separated
from the GPU, window and audio plumbing around it.

## Layout

- `src/` — the verified library.
  - `text`: whitespace, tokens, trimming, decimal numbers.
  - `command`: the remote command set and its text protocol; numeric
    arguments must be numbers as `f32` reads them (`number`), and the text
    a host sends is read back as the same command (`lemma_text_round_trip`).
  - `number`: the grammar of `f32` literals, checked on characters.
  - `osc`: OSC messages and bundles (decoded by `rosc`), and the command
    each one denotes; addresses outside `/acuneus/cuneus/` denote none
    (`lemma_strict_namespace`).
  - `datagram`: one UDP datagram — OSC first, text second — and whether
    its sender becomes the feedback target.
  - `feedback`: the messages a shader sends back; a value report read
    back as a message sets the same value (`lemma_value_report_round_trip`).
  - `registry`: the shader catalog and each shader's parameters; every
    table has non-empty, distinct ids and defaults within their bounds
    (`lemma_catalog_well_formed`).
  - `runtime`: the remote control state of a running shader and what each
    command asks of it.
  - `audio`: the 69-value spectrum frame.
  - `radix`: block counts, buffer sizes and pass plans of the GPU radix
    sort, and the splat sorter's buffer bookkeeping.
  - `pingpong`, `compute`, `layout`, `builder`: multi-pass ping-pong
    sides, dispatch planning, bind group assignment and shader
    configuration.
  - `export`: row padding of frame read-back.
  - `synth`, `media`, `capi`, `errors`: the synthesizer keyboard, media
    event lookup (offline audio samples) and spectrum message magnitudes,
    the C interface's helpers and the error types.
  - `ply`: splat files as the PLY parser reads them, their metadata and
    vertex positions.
- `tests/` — tests of the library on concrete values.
- `app/` — the unverified host: UDP listener and OSC sender, the `f32`
  side of the runtime, the C interface, PLY loading, GPU data copies.

Floating-point values never enter the library: they are carried as IEEE
bit patterns or as the text that arrived, and converted in `app/`.
