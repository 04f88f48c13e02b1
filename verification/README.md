# platform_macos

The decision logic of a driver that operates macOS applications in the
background: it observes windows, resolves elements and acts on them without
bringing anything to the front. The logic under `src/` carries contracts that
Verus proves. They rest on a few small wrappers around calls into other crates and
the standard library, each marked as such and documented where it stands; types
that only derive `Clone` promise nothing of their copies.

## Layout

- `src/ax` - accessibility: reads and their errors, enablement leases, recovery of
  minimized windows, cached trees, reacquisition of elements.
- `src/driver` - targets, observation, settlement of signals, frames, posture,
  focus, menus, interaction scopes, launches.
- `src/driver/actions` - semantic, keyboard and pointer actions: preparation,
  validation and dispatch.
- `src/background_mutation.rs` - which native mutations may run side by side.
- `src/contracts.rs`, `errors.rs`, `evidence.rs`, `text.rs`, `paths.rs` - the plain
  values that the rest speaks of.
- `app` - the native calls, threads, timers and floating-point geometry around the
  library.
- `tests` - the library on concrete values.

## Conventions

Times are nanoseconds on one monotonic clock. A retained AX element is its address
and a number that equal elements share. What needs native work in turn with
decisions is a state machine: the host performs what the current stage asks for
and hands the outcome back with `advance`. The public `proof fn`s state what holds
across calls.
