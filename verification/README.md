# FingerTip

FingerTip records key presses in the background and turns each day's typing
into a piece of music, a picture and a few sentences.

## Layout

- `src/` — the library, verified with Verus: aggregation of key events
  (counts, ranking, hourly distribution, pauses, key classes), theme and mood
  rules, calendar arithmetic, capability routing between the local engine and
  the cloud, the request bodies and reply handling of the model services, the
  orchestrator's prompt and reply validation, WAV structure, the writer's
  batching decisions, storage schema helpers, HTML escaping and the share
  address.
- `tests/` — tests of the library on concrete values.
- `app/` — the program around it: SQLite, HTTP calls, the keyboard hook, the
  minute scheduler, the share card rendering and the command line.
