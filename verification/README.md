# openshell_telemetry

Log aggregation, audit events and off-box export for the OpenShell gateway, with
the logic verified in Verus.

- `src/` is the verified library. Contracts speak over plain models: text is a
  sequence of characters, a JSON tree is a `Json` value, an event is its
  `EventView`, a channel is the history of what passed through a handle.
- `app/` is the run-time shell around it: the tracing layer, the task that drives
  the OTLP exporter, serde, and setup.
- `tests/` exercises the library from outside, with the real crates linked.

## What is proved

- An event's document, its one-line form and its flattened and raw field forms
  are exactly specified; documents read back into what they were written from;
  whichever form an event travels in, it exports at the severity its emitter
  assigned.
- A flattened event's fields are exactly its leaves under their dotted paths, and
  the raw form's text reads back into the event's document: exactly, but for the
  values of doubles, as long as what the event carries beyond the schema is not
  nested too deep.
- A sandbox's tail holds its latest events in order, its watchers listen on the
  channel that its lines go out on, events without a sandbox never show in a tail,
  and events of the export path never re-enter its queue.
- The export worker keeps attempts, delays and batches within bounds. Every record
  it takes is delivered, counted as dropped, or still in its hands, and a report
  that is lost goes back into the count. As long as no batch is given up on, lines
  are delivered once and in queue order.

## What is trusted

The calls into `serde_json`, `itoa`, `ryu`, `tokio` and `tonic` stand behind small
wrappers in `json`, `written`, `text`, `channel`, `request` and `otlp`. Each says in its
documentation what it claims of the function it calls.
