# Sound Hearing Aid

A radar overlay that shows where sound comes from: audio input is turned into
channel energies, an estimator scores eight directions, a smoother steadies the
scores, and a transparent ring window draws them.

## Layout

- `src/` — the verified library (Verus):
  - `types.rs`: channels, channel layouts and the eight ring directions, with
    their labels and score slots;
  - `source.rs`: the state an audio source reports, the recognition of refused
    capture permissions, state lines and help texts;
  - `capture.rs`: PCM format acceptance, buffer arrangement and the framing of
    interleaved sample buffers, and the decode error texts;
  - `runtime.rs`: which source feeds the radar and which layout the pipeline
    expects;
  - `window_modes.rs`: the overlay window's switches and the main window's
    overlay and click-through modes;
  - `platform.rs`: native window adjustments and the settings shortcut;
  - `text.rs`: character-level text search.
- `app/` — the program around it: estimators, smoothing and the demo source
  (all on `f32` samples), ScreenCaptureKit capture, and the gpui windows.
- `tests/` — tests of the library.
