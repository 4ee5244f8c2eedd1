# geo (verified core)

A Verus library holding the integer and ordering logic of geo's robust
kernel support, relate-graph edge intersections and utilities.

- `src/` is verified with Verus: `EdgeIntersection` and its total order
  (`edge_intersection.rs`), `partition_slice`, `partial_max`/`partial_min`
  and `EitherIter::next` (`utils.rs`), `lex_cmp`/`least_index`
  (`ordering.rs`), and the integer side of binary-exponent scaling
  (`exponent.rs`). Coordinates have `i64` ordinates (`coord.rs`).
- `app/` is ordinary Rust: the floating-point robust orientation kernel
  (using the `robust` crate), float decoding with `num-traits`, longitude
  normalisation, float lexicographic ordering and the `Iterator` impls of
  `EitherIter`.
- `tests/` runs the library on concrete values.
