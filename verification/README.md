# gpu_video

The decision logic of a hardware video library (Vulkan Video and VideoToolbox backends),
written in Verus with its behaviour stated in `requires` / `ensures` contracts and proved.

- `src/` — the verified library: adapter and queue planning, capability queries, encoder
  parameter validation, IDR cadence and reference slots, decode ordering and throttling,
  timeline-semaphore bookkeeping, Annex B conversion and parameter-set handling, NV12 DMA-BUF
  layout checks, the VideoToolbox session state machines and error messages. Calls into `ash`
  and `rustc-hash` go through a few trusted wrappers, each documented where it stands.
- `tests/` — tests run against the compiled library.
- `app/` — the unverified glue: system calls, `wgpu`/`ash` queries, `h264-reader` parsing,
  error types with `Display`, and the floating-point encoder settings.

Verify with `verus` on `src/lib.rs`; the public `law_*` proof functions state the properties
that hold across calls.
