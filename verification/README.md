# Antminer S9 hash chain control

The control logic of an Antminer S9: counting nonces per chip and core, line
speeds, clock frequencies, voltage, the enumeration of chips, the tasks of a hash
chain and the statistics of mining.

- `src/` is the library. Verus proves the contracts of its functions. Those of
  three functions of std are trusted: `str::parse` to a `usize`, `u128::count_ones`
  and `Instant::now`, of which nothing is claimed. A task that talks to hardware is
  a script (`src/script.rs`): its steps in order, and what the failure of each of
  them means.
- `app/` drives those scripts on hardware, which is behind the traits of
  `app/platform.rs`.
- `tests/` runs the library on concrete values.
