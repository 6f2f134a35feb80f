# event_protocol

The event protocol of the messaging system, verified with Verus: the
envelope that every event travels in, its metadata and retention, the
payload of each kind of event, and the schema version of each family of
events.

- `src/` is the library. `envelope` holds the envelope, its builders and the
  laws that relate them; `payload` the payload of every kind of event;
  `time` points in time and spans of time as chrono holds them, with the
  calls into chrono; `ids` UUIDs as their 128-bit value, with the call into
  uuid; `values` what events carry without looking into it (JSON documents,
  floating-point quantities); `schema_versions` the version constants.
- `app/` holds the same types in the forms that serde reads and writes,
  converted to and from the library's types, and the envelope's builders on
  those forms.
- `tests/` runs the library, and holds its results against chrono's.
