# phaselith

Verified control, format and bookkeeping logic of the Phaselith audio
enhancement system: the Windows audio processing object (APO), the macOS
CoreAudio driver, and the frame/hop machinery of the DSP engine.

## Layout

- `src/` — the library, verified with Verus. Every public function carries a
  contract; laws that relate several calls are public proof functions.
  - `format_negotiate`, `apo_com`, `apo_control`, `audio_dump`, `guid` — the
    APO: format answers, the lock protocol, per-block decisions, the
    recent-input prime store, before/after capture and WAV encoding, COM class
    identifiers.
  - `constants`, `object_model`, `properties`, `plugin_interface`,
    `io_engine` — the CoreAudio driver: object hierarchy, property sizes and
    exact data bytes, IO client bookkeeping, block routing of the IO engine.
  - `config`, `frame`, `module`, `orchestrator` — engine configuration codes,
    frame/hop parameters and clock, module bookkeeping and the input ring.
- `tests/` — executable tests of the library.
- `app/` — ordinary Rust around the library: shared-memory IPC, file and
  thread work, the CoreAudio C entry points, the floating-point mixing
  around the engines, and the self-contained floating-point DSP helpers
  (the library holds samples only as IEEE-754 bit patterns). The DSP
  engine itself (the M0-M7 pipeline) is not here: the hosts drive it
  through the `MonoEngine` interface, and no implementation of that
  interface is included. The Windows COM, registry and DLL-export layer is
  not here either.
