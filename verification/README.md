# fswatch

Bindings to libfswatch, the file change monitor, split in two.

- `src/` is the verified library. `status` maps the C API's status codes to `FswStatus` and
  results; `kinds` gives monitor types, event flags and filter types their C values; `cstring`
  checks text for nul bytes before it becomes a C string; `event` holds filters and events and reads
  the raw events the C API hands over; `builder` gathers the options of a session and orders them
  for building, and `BuildRun` applies them one by one, stopping at the first that fails; `session` keeps the handle of a session and which setup calls succeeded;
  `iterator` decides when an event iterator starts its monitor and what each poll leads to.
- `app/` makes the calls into libfswatch through `fswatch-sys`, and runs the monitor thread and the
  event channel of the iterator.
