# dro_synth

Sound-chip emulation cores and the playback bookkeeping around them, written
in Verus and proved against their contracts.

- `src/chip.rs` — the `ChipCore` contract every core meets: a deterministic
  state machine whose rendered frames are a function of its state, with the
  proof that how a render is chunked never changes what it produces.
- `src/cores/` — one module per chip.
- `src/engine.rs`, `src/banks.rs`, `src/chip_mix.rs`, `src/registry.rs`,
  `src/peak.rs`, `src/credits.rs` — frame timing, muting and panning, sample
  banks, per-instance mixer state, core selection, peak bookkeeping, credits.
- `src/opl.rs` — the OPL3 synthesis of the `nuked-opl3` crate behind small
  trusted wrappers.
- `src/bits.rs` — the bit-level facts the cores' proofs use.
- `app/` — what cannot be verified: the process-wide registry state, the
  core makers, and the floating-point resampler and limiter.
- `tests/` — tests of the library on concrete values.

Not here: the OPL playback engine (its render loop, loop regions, seeking,
and muting and panning writes), the peak scan that drives it, and the Y8950
core. They rest on the song model and the ADPCM decoder of sibling crates
that are not part of this project's sources.
