# intervalsets_core

Intervals over integer element types (the primitive integers and
`Saturating<T>`), treated as sets, with their behaviour proved by Verus.

Every interval's meaning is its view: the `Set<int>` of element values it
holds. Contracts are stated over that view, over the interval's optional
left and right ends, and over the values of its bounds.

## Layout

- `src/bound.rs`, `src/bound/ord.rs`: finite bounds, sides, and the total
  order on bounds (`OrdBound`, `OrdBoundPair`).
- `src/numeric.rs`, `src/numeric/`: the `Element` trait and its
  implementations; each element has an integer value `as_int`.
- `src/sets.rs`: `FiniteInterval`, `HalfInterval`, `EnumInterval`, kept in
  canonical closed form by type invariants.
- `src/factory.rs`: strict and coercive constructors.
- `src/ops.rs`, `src/ops/`: containment, intersection, splitting,
  rebounding, hulls, span, connectivity, merging, the interval order and
  interval arithmetic.
- `src/disjoint.rs`: `MaybeDisjoint`, the result of operations that may
  split into two intervals.
- `src/measure.rs`, `src/measure/`: counts, widths, the natural measure and
  midpoints, with the measure laws (cardinality, monotonicity,
  subadditivity, additivity on disjoint pieces).
- `src/category.rs`, `src/cast.rs`, `src/cast/`, `src/from.rs`,
  `src/display.rs`: classification, conversions between element types and
  shapes, and text rendering.
- `tests/`: executable tests of the library.

Run the verifier on `src/lib.rs`; the tests are ordinary `cargo test`
targets.
