# range_cmp (verified)

Compare a value with a range of values: `15.rcmp(20..30)` is `RangeOrdering::Below`,
`25.rcmp(20..30)` is `Inside`, `35.rcmp(20..30)` is `Above`, and an empty range such as
`30..20` gives `Empty`. For partial orders, `partial_rcmp` returns a `RangePosition`, the
pair of the value's relationships to the lower and the upper bound.

Layout of `src/`:

- `position.rs`: the verdict types `RangeOrdering`, `BoundOrdering`, `RangePosition`, and
  how a position collapses to a single verdict.
- `bounds.rs`: `Endpoint`, one end of a range; the comparison of a value with each bound,
  the emptiness test, and `rcmp_bounds`, each with a contract over the spec functions
  defined there.
- `laws.rs`: what a lawful partial order and a total order provide, and the laws of the
  library (`(Outside, Outside)` only for inverted ranges, each side of a range closed under
  the order, no value incomparable under a total order, `Empty` exactly for empty ranges,
  the verdict monotone in the value...).
- `compare.rs`: the `RangeOrd`, `PartialRangeOrd` and `BorrowRange` traits over the range
  types of `std::ops`; `BorrowRange` states the two ends of each range type as
  `RangeBounds` gives them, so `15.rcmp(20..30) == Below` is proved at the public method.

`rcmp` and `partial_rcmp` take the range types of `std::ops`, the `(Bound, Bound)` pairs
and references to them; a range type of one's own is accepted once it implements
`BorrowRange`, or its two ends can be passed to `rcmp_bounds` and `position_in` directly.
`RangeOrd` asks for `Ord + Sized` and `PartialRangeOrd` for `PartialOrd + Sized`, which
every type they are implemented for already has. `rcmp` asks that the order be a lawful
total order (`obeys_cmp`), the property under which its verdict is always defined.
`partial_rcmp` and the functions below it tie each side of the position to the outcome of
the comparison actually made, for every `PartialOrd` type, and give the exact position when
the type's comparison follows its specification.
