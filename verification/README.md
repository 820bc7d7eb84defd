# steel_flint

A Flint test harness for the SteelMC server, written in Verus.

- `src/` is the verified library: the one-time set-up plan (`init`), the
  settings of the test server and of test worlds, chunk coordinates, the tick
  counter and retained chunk requests of a test world, the per-round decision
  while a chunk request is driven, the adapter's server information, and the
  glob that selects tests by name.
- `app/` owns what needs the SteelMC crates, Flint and the async runtime: the
  process-wide statics, the world itself, and the Flint trait impls.
- `tests/` runs the library on concrete values.
