# sharky

Values of the Sharky virtual machine and the primitive readers of the
Simplex binary format, verified with Verus.

- `src/data_types.rs`: `SharkyDataType` and its conversions, arithmetic,
  bitwise operations, comparisons and display text. Reals are carried as
  binary64 bit patterns; comparisons on them are decided in `src/real_bits.rs`,
  while their arithmetic is delegated to a `RealArithmetic` implementation.
- `src/simplex_file_read.rs`: little- and big-endian decoding of the integer
  types from what one read delivered, and UTF-8 strings.
- `src/value_laws.rs`, `src/simplex_laws.rs`: laws the operations obey.
- `src/arith.rs`, `src/decimal.rs`: division toward zero and decimal text.
- `app/lib.rs`: the value type with `f64` reals and its derives, the `f64`
  arithmetic, shared values behind a `parking_lot` lock, and readers over a
  `BufReader`.
