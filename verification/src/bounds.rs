use crate::laws::{lemma_nonempty_has_verdict, lemma_total_order};
use crate::position::{collapse, BoundOrdering, RangeOrdering, RangePosition};
use std::cmp::Ordering;
use vstd::laws_cmp::obeys_cmp;
use vstd::prelude::*;
use vstd::std_specs::cmp::PartialOrdSpec;

verus! {

/// One end of a range, holding the key that the value is compared with.
#[derive(Clone, Copy, Debug, PartialEq, Eq, Hash)]
pub enum Endpoint<T> {
    /// The key itself belongs to the range.
    Included(T),
    /// The key itself does not belong to the range.
    Excluded(T),
    /// The range extends without limit on this side.
    Unbounded,
}

/// How a value relates to a lower bound, given the outcome of comparing the value with the
/// bound's key.
pub open spec fn lower_verdict_spec(inclusive: bool, c: Option<Ordering>) -> BoundOrdering {
    match c {
        Some(Ordering::Less) => BoundOrdering::Outside,
        Some(Ordering::Equal) => if inclusive {
            BoundOrdering::Within
        } else {
            BoundOrdering::Outside
        },
        Some(Ordering::Greater) => BoundOrdering::Within,
        None => BoundOrdering::Incomparable,
    }
}

/// How a value relates to an upper bound, given the outcome of comparing the value with the
/// bound's key.
pub open spec fn upper_verdict_spec(inclusive: bool, c: Option<Ordering>) -> BoundOrdering {
    match c {
        Some(Ordering::Greater) => BoundOrdering::Outside,
        Some(Ordering::Equal) => if inclusive {
            BoundOrdering::Within
        } else {
            BoundOrdering::Outside
        },
        Some(Ordering::Less) => BoundOrdering::Within,
        None => BoundOrdering::Incomparable,
    }
}

/// Relationship of `value` to a lower bound, under the type's comparison.
pub open spec fn lower_ordering_spec<T: PartialOrd>(value: &T, bound: Endpoint<&T>) -> BoundOrdering {
    match bound {
        Endpoint::Unbounded => BoundOrdering::Within,
        Endpoint::Included(key) => lower_verdict_spec(true, value.partial_cmp_spec(key)),
        Endpoint::Excluded(key) => lower_verdict_spec(false, value.partial_cmp_spec(key)),
    }
}

/// Relationship of `value` to an upper bound, under the type's comparison.
pub open spec fn upper_ordering_spec<T: PartialOrd>(value: &T, bound: Endpoint<&T>) -> BoundOrdering {
    match bound {
        Endpoint::Unbounded => BoundOrdering::Within,
        Endpoint::Included(key) => upper_verdict_spec(true, value.partial_cmp_spec(key)),
        Endpoint::Excluded(key) => upper_verdict_spec(false, value.partial_cmp_spec(key)),
    }
}

/// `r` is the verdict on a lower bound for an outcome that `partial_cmp` of `value` with the
/// bound's key can give: this ties the verdict to the comparison actually made, for every
/// `PartialOrd` type.
pub open spec fn lower_outcome<T: PartialOrd>(value: &T, bound: Endpoint<&T>, r: BoundOrdering) -> bool {
    match bound {
        Endpoint::Included(key) => exists|c: Option<Ordering>|
            call_ensures(T::partial_cmp, (value, key), c) && r == #[trigger] lower_verdict_spec(true, c),
        Endpoint::Excluded(key) => exists|c: Option<Ordering>|
            call_ensures(T::partial_cmp, (value, key), c) && r == #[trigger] lower_verdict_spec(false, c),
        Endpoint::Unbounded => r == BoundOrdering::Within,
    }
}

/// `r` is the verdict on an upper bound for an outcome that `partial_cmp` of `value` with the
/// bound's key can give.
pub open spec fn upper_outcome<T: PartialOrd>(value: &T, bound: Endpoint<&T>, r: BoundOrdering) -> bool {
    match bound {
        Endpoint::Included(key) => exists|c: Option<Ordering>|
            call_ensures(T::partial_cmp, (value, key), c) && r == #[trigger] upper_verdict_spec(true, c),
        Endpoint::Excluded(key) => exists|c: Option<Ordering>|
            call_ensures(T::partial_cmp, (value, key), c) && r == #[trigger] upper_verdict_spec(false, c),
        Endpoint::Unbounded => r == BoundOrdering::Within,
    }
}

/// `r` is the emptiness verdict for outcomes that `>` (both ends included) or `>=` (some end
/// excluded) of the start key with the end key can give; a range with an unbounded side is
/// never empty.
pub open spec fn empty_outcome<T: PartialOrd>(start: Endpoint<&T>, end: Endpoint<&T>, r: bool) -> bool {
    match (start, end) {
        (Endpoint::Included(s), Endpoint::Included(e)) => call_ensures(T::gt, (s, e), r),
        (Endpoint::Included(s), Endpoint::Excluded(e))
        | (Endpoint::Excluded(s), Endpoint::Included(e))
        | (Endpoint::Excluded(s), Endpoint::Excluded(e)) => call_ensures(T::ge, (s, e), r),
        _ => !r,
    }
}

/// Position of `value` relative to the range from `start` to `end`.
pub open spec fn position_spec<T: PartialOrd>(
    value: &T,
    start: Endpoint<&T>,
    end: Endpoint<&T>,
) -> RangePosition {
    RangePosition {
        lower: lower_ordering_spec(value, start),
        upper: upper_ordering_spec(value, end),
    }
}

/// Whether the range from `start` to `end` is empty, judged from its bounds alone: a range
/// with an unbounded side is never empty.
pub open spec fn is_empty_spec<T: PartialOrd>(start: Endpoint<&T>, end: Endpoint<&T>) -> bool {
    match (start, end) {
        (Endpoint::Included(s), Endpoint::Included(e)) => s.partial_cmp_spec(e) == Some(
            Ordering::Greater,
        ),
        (Endpoint::Included(s), Endpoint::Excluded(e))
        | (Endpoint::Excluded(s), Endpoint::Included(e))
        | (Endpoint::Excluded(s), Endpoint::Excluded(e)) => s.partial_cmp_spec(e) matches Some(
            Ordering::Greater
            | Ordering::Equal,
        ),
        _ => false,
    }
}

/// Verdict of comparing `value` with the range from `start` to `end` over a total order.
pub open spec fn rcmp_spec<T: PartialOrd>(
    value: &T,
    start: Endpoint<&T>,
    end: Endpoint<&T>,
) -> RangeOrdering {
    if is_empty_spec(start, end) {
        RangeOrdering::Empty
    } else {
        collapse(position_spec(value, start, end)).unwrap()
    }
}

/// Relationship to a lower bound, from the outcome of comparing the value with its key.
pub fn lower_verdict(inclusive: bool, c: Option<Ordering>) -> (r: BoundOrdering)
    ensures
        r == lower_verdict_spec(inclusive, c),
{
    match c {
        Some(Ordering::Less) => BoundOrdering::Outside,
        Some(Ordering::Equal) => if inclusive {
            BoundOrdering::Within
        } else {
            BoundOrdering::Outside
        },
        Some(Ordering::Greater) => BoundOrdering::Within,
        None => BoundOrdering::Incomparable,
    }
}

/// Relationship to an upper bound, from the outcome of comparing the value with its key.
pub fn upper_verdict(inclusive: bool, c: Option<Ordering>) -> (r: BoundOrdering)
    ensures
        r == upper_verdict_spec(inclusive, c),
{
    match c {
        Some(Ordering::Greater) => BoundOrdering::Outside,
        Some(Ordering::Equal) => if inclusive {
            BoundOrdering::Within
        } else {
            BoundOrdering::Outside
        },
        Some(Ordering::Less) => BoundOrdering::Within,
        None => BoundOrdering::Incomparable,
    }
}

/// Computes the relationship of `value` to a lower bound.
pub fn lower_ordering<T: PartialOrd>(value: &T, bound: Endpoint<&T>) -> (r: BoundOrdering)
    ensures
        T::obeys_partial_cmp_spec() ==> r == lower_ordering_spec(value, bound),
        lower_outcome(value, bound, r),
{
    match bound {
        Endpoint::Unbounded => BoundOrdering::Within,
        Endpoint::Included(key) => lower_verdict(true, value.partial_cmp(key)),
        Endpoint::Excluded(key) => lower_verdict(false, value.partial_cmp(key)),
    }
}

/// Computes the relationship of `value` to an upper bound.
pub fn upper_ordering<T: PartialOrd>(value: &T, bound: Endpoint<&T>) -> (r: BoundOrdering)
    ensures
        T::obeys_partial_cmp_spec() ==> r == upper_ordering_spec(value, bound),
        upper_outcome(value, bound, r),
{
    match bound {
        Endpoint::Unbounded => BoundOrdering::Within,
        Endpoint::Included(key) => upper_verdict(true, value.partial_cmp(key)),
        Endpoint::Excluded(key) => upper_verdict(false, value.partial_cmp(key)),
    }
}

/// Builds the [`RangePosition`] of `value` relative to the range from `start` to `end`.
pub fn position_in<T: PartialOrd>(value: &T, start: Endpoint<&T>, end: Endpoint<&T>) -> (r:
    RangePosition)
    ensures
        T::obeys_partial_cmp_spec() ==> r == position_spec(value, start, end),
        lower_outcome(value, start, r.lower),
        upper_outcome(value, end, r.upper),
{
    RangePosition { lower: lower_ordering(value, start), upper: upper_ordering(value, end) }
}

/// Returns whether the range from `start` to `end` is empty, judged solely from its bounds.
/// A range with at least one unbounded side is never empty.
pub fn range_is_empty<T: Ord>(start: Endpoint<&T>, end: Endpoint<&T>) -> (r: bool)
    ensures
        T::obeys_partial_cmp_spec() ==> r == is_empty_spec(start, end),
        empty_outcome(start, end, r),
{
    match (start, end) {
        (Endpoint::Included(s), Endpoint::Included(e)) => *s > *e,
        (Endpoint::Included(s), Endpoint::Excluded(e))
        | (Endpoint::Excluded(s), Endpoint::Included(e))
        | (Endpoint::Excluded(s), Endpoint::Excluded(e)) => *s >= *e,
        _ => false,
    }
}

} // verus!

verus! {

/// Compares `value` with the range from `start` to `end` over a total order: the range is
/// `Empty` when its bounds say so, and otherwise the value is `Below`, `Inside` or `Above`.
pub fn rcmp_bounds<T: Ord>(value: &T, start: Endpoint<&T>, end: Endpoint<&T>) -> (r: RangeOrdering)
    requires
        obeys_cmp::<T>(),
    ensures
        r == rcmp_spec(value, start, end),
{
    proof {
        lemma_total_order::<T>();
    }
    if range_is_empty(start, end) {
        return RangeOrdering::Empty;
    }
    proof {
        lemma_nonempty_has_verdict(value, start, end);
    }
    // The order is total, so no bound is incomparable, and a non-empty range always yields
    // one of `Below`, `Inside` or `Above`.
    position_in(value, start, end).ordering().expect(
        "a total order over a non-empty range always yields a verdict",
    )
}

} // verus!
