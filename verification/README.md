# disk_buffer

Configuration of a disk-backed event buffer, verified with Verus.

`DiskBufferConfigBuilder` collects the buffer's parameters, fills in defaults, refuses
parameters under which the buffer could not keep within the space it was given, and derives
the buffer size that is used internally: what the user allowed, less one data file.

- `src/`: the verified library. `src/limits.rs` states the rules, `src/config.rs` holds the
  builder and the configuration, `src/laws.rs` what holds of them as a whole.
- `app/`: the same for ordinary callers, with generic paths and displayable errors.
- `tests/`: the library, run on concrete values.
