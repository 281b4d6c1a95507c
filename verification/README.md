# rt_trace

Runtime tracing for async runtimes, verified with Verus.

`src/` is the verified library:

- `lib.rs` — the tracing state (`Tracer`): whether tracing is on, the span
  queue of every shard, and the spans handed on to the consumer; `initialize`,
  `start`, `stop`, `span`, `end_span` and `flush`.
- `span.rs` — span kinds and the recorded span.
- `span_queue.rs` — batching span queues, the shard store, and the table of
  track descriptors.
- `backend/` — the Perfetto trace: packets built from spans and their
  protobuf encoding (varints and keys are written by `prost`).
- `utils/ring_buffer.rs` — a fixed-capacity buffer that keeps the most recent items.
- `flight_recorder.rs` — the runtime's flight recorder handle.
- `hopframe/` — where the executable is loaded, and symbol-map configuration.
- `tracing_perfetto/` — the runtime's tracing-layer helpers.

`app/` holds what runs around it: the process-wide state behind locks,
clocks and thread identities, writers, `/proc`, symbol files and the
aarch64 stack unwinder.
