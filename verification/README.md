# emit

A structured diagnostics model, specified and proved with Verus.

- `src/` is the verified library: timestamps and their RFC 3339 rendering
  (with the proleptic Gregorian calendar they rest on), extents, trace and
  span identifiers with their hex forms, hierarchical paths, string keys,
  levels, metric samples, text templates and their equality, filters,
  emitters and targets, the runtime that combines them, the batching
  channel's state machine (sending, flushing, taking batches, backoff and
  retries), and the configuration of an OTLP exporter.
- `tests/` exercises the library on concrete values.
- `app/` runs the batching channel between threads behind a lock, waits for
  flushes and reads the system clock; every decision it makes is taken by a
  verified function of the library.
