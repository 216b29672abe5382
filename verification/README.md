# kiosk_core

Business core of a kiosk module: the device stays locked by default; a
PIN-protected grant of time unlocks it, and it locks itself again once the
credit has run out.

## Layout

- `src/` — the verified library.
  - `adapters/` — the clock port, the errors of the device locker and of the
    time credit storage, and the stored credit itself.
  - `usecases/` — the use cases as state machines, with their laws:
    enforcement of the stored credit, grant of time after a PIN check, and
    locking the device; `lifecycle.rs` relates a grant to later enforcements.
  - `android/` — the decisions of the Android adapters (credit file, Kotlin
    bridges, fixed PIN) and of the JNI bridge (return codes, arguments).
  - `duration.rs` — the two calls into `std::time::Duration`.
- `app/` — the Android host: the asynchronous ports, their adapters (files,
  JNI, logging), the loops that drive the use cases, and the JNI entry points.
- `tests/` — the use-case scenarios and the adapters' cases.

A use case run starts with `start`, then repeatedly asks `command()` for the
port call to make and feeds its answer to `next`, until the command is
`Return`.
