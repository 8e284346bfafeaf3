# export_worker

The decisions of a snapshot-export worker and of glibc page reclamation,
verified with Verus.

- `src/` is the library. It holds no I/O: the worker (`exports/worker.rs`), an
  attempt at an export (`exports/task.rs`), the watch for a cancellation beside
  it (`exports/race.rs`), the transactions on the export document
  (`exports/edit.rs`) and trims of the allocator (`allocator.rs`) take what the
  outside world has answered and say what to do next. Metrics are values that
  describe an update (`metrics.rs`). What holds over whole histories is stated in
  `exports/laws.rs` and `laws.rs`.
- `app/` does what the library asks for. Databases, storage and the export
  provider are reached through the `Host` trait; `malloc_trim` is called there.
- `tests/` runs the library on concrete values.
