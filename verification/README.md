# JAM Orbit

Real-time telemetry dashboard for JAM validators: it connects to a jamtart
node over WebSocket and shows the validator ring, event particles, event
rates and block progress, with filtering by event kind.

## Layout

- `src/` is the verified library (Verus). It holds the event model and its
  catalogue (codes, names, categories, directions, failure kinds), the filter
  panel's state transitions, the per-node event store with retention and rate
  buckets, the peer-count series and block tables, the ring's particle buffer
  with its enable mask and upload cursor, the GPU upload planner, the colouring
  plan, drop accounting and the ingestion of decoded messages. Laws that span
  several calls are public proof functions named `law_*`.
- `tests/` exercises the library on concrete values.
- `app/` is the desktop program: WebSocket client, JSON decoding into the
  library's types, egui rendering and floating-point colours and geometry.

Times in the library are integer milliseconds of app time.
