# coreaudio

Typed access to the macOS CoreAudio Hardware Abstraction Layer (HAL), with
the logic proved by Verus.

## Layout

- `src/` — the verified library.
  - `hal_codes.rs`: the four-character codes of the HAL (transport and
    terminal types, formats, errors, selectors, scopes, format flags).
  - `errors.rs`: `ErrorKind`, `CoreAudioError`, the mapping of status codes
    to kinds and `check_status`.
  - `data_types.rs`: scopes, hog mode, power hints, transport and terminal
    types, format IDs and flags, sample formats, stream descriptions (the
    sample rate kept as the bits of its `f64`), buffer size ranges and
    channel pairs, with their round-trip laws.
  - `codec.rs`: the byte layouts of property values in either byte order,
    and the laws that reading what was written gives it back.
  - `property.rs`, `traits.rs`: property addresses, qualifiers, and the
    marker traits that check property use at compile time.
  - `object.rs`: system, device and stream objects and the choices made on
    what the HAL reports (which devices have streams in a scope, the order
    of a device's streams).
  - `listener.rs`, `io_proc.rs`: the decisions of property listeners and of
    I/O procs (play/pause state, buffer shapes).
- `tests/` — tests of the library on concrete values.
- `app/` — the calls into the HAL and Core Foundation, the floating-point
  values (sample rates, decibel ranges, sample scaling) and the property
  table; it builds on macOS only.
