use crate::bounds::{is_empty_spec, lower_ordering_spec, position_spec, rcmp_spec, upper_ordering_spec, Endpoint};
use crate::position::{collapse, BoundOrdering, RangeOrdering, RangePosition};
use std::cmp::Ordering;
use vstd::laws_cmp::{obeys_cmp, obeys_cmp_ord, obeys_cmp_partial_ord, obeys_partial_cmp_spec_properties};
use vstd::laws_eq::obeys_eq_spec_properties;
use vstd::prelude::*;
use vstd::std_specs::cmp::{OrdSpec, PartialEqSpec, PartialOrdSpec};

verus! {

/// `x` compares as less than or equal to `y`.
pub open spec fn at_most<T: PartialOrd>(x: &T, y: &T) -> bool {
    x.partial_cmp_spec(y) matches Some(Ordering::Less | Ordering::Equal)
}

/// `x` compares as strictly less than `y`.
pub open spec fn below<T: PartialOrd>(x: &T, y: &T) -> bool {
    x.partial_cmp_spec(y) == Some(Ordering::Less)
}

/// A lawful partial order: `partial_cmp` follows its specification, `Less` and `Greater`
/// are mirror images, `Equal` is symmetric, and `<=` and `<` chain.
pub open spec fn lawful_partial_order<T: PartialOrd>() -> bool {
    &&& T::obeys_partial_cmp_spec()
    &&& forall|x: &T, y: &T|
        #[trigger] x.partial_cmp_spec(y) == Some(Ordering::Less) <==> y.partial_cmp_spec(x) == Some(
            Ordering::Greater,
        )
    &&& forall|x: &T, y: &T|
        #[trigger] x.partial_cmp_spec(y) == Some(Ordering::Equal) <==> y.partial_cmp_spec(x)
            == Some(Ordering::Equal)
    &&& forall|x: &T, y: &T, z: &T|
        #![trigger x.partial_cmp_spec(y), y.partial_cmp_spec(z)]
        at_most(x, y) && at_most(y, z) ==> at_most(x, z)
    &&& forall|x: &T, y: &T, z: &T|
        #![trigger x.partial_cmp_spec(y), y.partial_cmp_spec(z)]
        below(x, y) && at_most(y, z) ==> below(x, z)
    &&& forall|x: &T, y: &T, z: &T|
        #![trigger x.partial_cmp_spec(y), y.partial_cmp_spec(z)]
        at_most(x, y) && below(y, z) ==> below(x, z)
}

/// A total order (`Ord` following its laws) is a lawful partial order in which any two
/// values compare.
pub proof fn lemma_total_order<T: Ord>()
    requires
        obeys_cmp::<T>(),
    ensures
        T::obeys_partial_cmp_spec(),
        forall|x: &T, y: &T| #[trigger] x.partial_cmp_spec(y) is Some,
        lawful_partial_order::<T>(),
{
    reveal(obeys_cmp_partial_ord);
    reveal(obeys_cmp_ord);
    reveal(obeys_partial_cmp_spec_properties);
    reveal(obeys_eq_spec_properties);
    assert forall|x: &T, y: &T| #[trigger] x.partial_cmp_spec(y) is Some by {
        assert(x.partial_cmp_spec(y) == Some(x.cmp_spec(y)));
    }
    assert forall|x: &T, y: &T|
        #[trigger] x.partial_cmp_spec(y) == Some(Ordering::Equal) <==> y.partial_cmp_spec(x)
            == Some(Ordering::Equal) by {
        if x.partial_cmp_spec(y) == Some(Ordering::Equal) {
            assert(x.eq_spec(y));
            assert(y.eq_spec(x));
        }
        if y.partial_cmp_spec(x) == Some(Ordering::Equal) {
            assert(y.eq_spec(x));
            assert(x.eq_spec(y));
        }
    }
    assert forall|x: &T, y: &T, z: &T|
        #![trigger x.partial_cmp_spec(y), y.partial_cmp_spec(z)]
        below(x, y) && at_most(y, z) implies below(x, z) by {
        assert(x.partial_cmp_spec(z) == Some(x.cmp_spec(z)));
        if y.partial_cmp_spec(z) == Some(Ordering::Equal) {
            if x.partial_cmp_spec(z) == Some(Ordering::Equal) {
                assert(y.eq_spec(z));
                assert(x.eq_spec(z));
                assert(z.eq_spec(y));
                assert(x.eq_spec(y));
            } else if x.partial_cmp_spec(z) == Some(Ordering::Greater) {
                assert(z.partial_cmp_spec(x) == Some(Ordering::Less));
                assert(z.partial_cmp_spec(y) == Some(Ordering::Less));
                assert(z.eq_spec(y));
            }
        }
    }
    assert forall|x: &T, y: &T, z: &T|
        #![trigger x.partial_cmp_spec(y), y.partial_cmp_spec(z)]
        at_most(x, y) && below(y, z) implies below(x, z) by {
        assert(x.partial_cmp_spec(z) == Some(x.cmp_spec(z)));
        if x.partial_cmp_spec(y) == Some(Ordering::Equal) {
            if x.partial_cmp_spec(z) == Some(Ordering::Equal) {
                assert(x.eq_spec(y));
                assert(x.eq_spec(z));
                assert(y.eq_spec(x));
                assert(y.eq_spec(z));
            } else if x.partial_cmp_spec(z) == Some(Ordering::Greater) {
                assert(z.partial_cmp_spec(x) == Some(Ordering::Less));
                assert(y.partial_cmp_spec(x) == Some(Ordering::Less));
                assert(y.eq_spec(x));
            }
        }
    }
    assert forall|x: &T, y: &T, z: &T|
        #![trigger x.partial_cmp_spec(y), y.partial_cmp_spec(z)]
        at_most(x, y) && at_most(y, z) implies at_most(x, z) by {
        if x.partial_cmp_spec(y) == Some(Ordering::Equal) && y.partial_cmp_spec(z) == Some(
            Ordering::Equal,
        ) {
            assert(x.eq_spec(y));
            assert(y.eq_spec(z));
            assert(x.eq_spec(z));
        } else if x.partial_cmp_spec(y) == Some(Ordering::Equal) {
            assert(below(y, z));
        } else {
            assert(below(x, y));
        }
    }
}

/// Over a total order, a non-empty range gives a value exactly one of the verdicts
/// `Below`, `Inside` or `Above`.
pub proof fn lemma_nonempty_has_verdict<T: Ord>(value: &T, start: Endpoint<&T>, end: Endpoint<&T>)
    requires
        obeys_cmp::<T>(),
        !is_empty_spec(start, end),
    ensures
        collapse(position_spec(value, start, end)) matches Some(o) && o != RangeOrdering::Empty,
{
    lemma_total_order::<T>();
    match (start, end) {
        (Endpoint::Included(s), Endpoint::Included(e))
        | (Endpoint::Included(s), Endpoint::Excluded(e))
        | (Endpoint::Excluded(s), Endpoint::Included(e))
        | (Endpoint::Excluded(s), Endpoint::Excluded(e)) => {
            assert(s.partial_cmp_spec(e) is Some);
            assert(value.partial_cmp_spec(s) is Some);
            assert(value.partial_cmp_spec(e) is Some);
            assert(e.partial_cmp_spec(value) is Some);
        },
        (Endpoint::Unbounded, Endpoint::Included(e)) | (Endpoint::Unbounded, Endpoint::Excluded(e)) => {
            assert(value.partial_cmp_spec(e) is Some);
        },
        (Endpoint::Included(s), Endpoint::Unbounded) | (Endpoint::Excluded(s), Endpoint::Unbounded) => {
            assert(value.partial_cmp_spec(s) is Some);
        },
        (Endpoint::Unbounded, Endpoint::Unbounded) => {},
    }
}

/// Rank of a verdict along the order of values: `Below`, then `Inside`, then `Above`.
pub open spec fn verdict_rank(o: RangeOrdering) -> int {
    match o {
        RangeOrdering::Below => 0,
        RangeOrdering::Inside => 1,
        RangeOrdering::Above => 2,
        RangeOrdering::Empty => 3,
    }
}

/// Over a total order, a value is never incomparable with either bound of a range.
pub proof fn law_total_order_is_comparable<T: Ord>(value: &T, start: Endpoint<&T>, end: Endpoint<&T>)
    requires
        obeys_cmp::<T>(),
    ensures
        position_spec(value, start, end).lower != BoundOrdering::Incomparable,
        position_spec(value, start, end).upper != BoundOrdering::Incomparable,
{
    lemma_total_order::<T>();
    match start {
        Endpoint::Included(s) | Endpoint::Excluded(s) => assert(value.partial_cmp_spec(s) is Some),
        Endpoint::Unbounded => {},
    }
    match end {
        Endpoint::Included(e) | Endpoint::Excluded(e) => assert(value.partial_cmp_spec(e) is Some),
        Endpoint::Unbounded => {},
    }
}

/// Over a lawful partial order, being below the lower bound and above the upper bound at
/// once, `(Outside, Outside)`, happens only for an empty (inverted) range.
pub proof fn law_outside_both_only_when_empty<T: PartialOrd>(
    value: &T,
    start: Endpoint<&T>,
    end: Endpoint<&T>,
)
    requires
        lawful_partial_order::<T>(),
        position_spec(value, start, end) == (RangePosition {
            lower: BoundOrdering::Outside,
            upper: BoundOrdering::Outside,
        }),
    ensures
        is_empty_spec(start, end),
{
    match (start, end) {
        (Endpoint::Included(s), Endpoint::Included(e))
        | (Endpoint::Included(s), Endpoint::Excluded(e))
        | (Endpoint::Excluded(s), Endpoint::Included(e))
        | (Endpoint::Excluded(s), Endpoint::Excluded(e)) => {
            assert(at_most(e, value));
            assert(at_most(value, s));
            assert(at_most(e, s));
            assert(e.partial_cmp_spec(s) is Some);
            assert(s.partial_cmp_spec(e) is Some);
        },
        _ => {},
    }
}

/// Over a lawful partial order, the values that satisfy a lower bound are closed upwards:
/// a value at least as large as one that satisfies it satisfies it too.
pub proof fn law_lower_upward_closed<T: PartialOrd>(x: &T, y: &T, bound: Endpoint<&T>)
    requires
        lawful_partial_order::<T>(),
        at_most(x, y),
        lower_ordering_spec(x, bound) == BoundOrdering::Within,
    ensures
        lower_ordering_spec(y, bound) == BoundOrdering::Within,
{
    match bound {
        Endpoint::Included(k) | Endpoint::Excluded(k) => {
            assert(k.partial_cmp_spec(x) is Some);
            assert(k.partial_cmp_spec(y) is Some);
            assert(y.partial_cmp_spec(k) is Some);
        },
        Endpoint::Unbounded => {},
    }
}

/// Over a lawful partial order, the values that satisfy an upper bound are closed downwards:
/// a value at most as large as one that satisfies it satisfies it too.
pub proof fn law_upper_downward_closed<T: PartialOrd>(x: &T, y: &T, bound: Endpoint<&T>)
    requires
        lawful_partial_order::<T>(),
        at_most(x, y),
        upper_ordering_spec(y, bound) == BoundOrdering::Within,
    ensures
        upper_ordering_spec(x, bound) == BoundOrdering::Within,
{
    match bound {
        Endpoint::Included(k) | Endpoint::Excluded(k) => {
            assert(k.partial_cmp_spec(x) is Some);
            assert(y.partial_cmp_spec(k) is Some);
            assert(x.partial_cmp_spec(k) is Some);
        },
        Endpoint::Unbounded => {},
    }
}

/// Over a total order, the verdict is `Empty` exactly when the range is empty by its bounds;
/// otherwise it is what the position relative to the two bounds collapses to.
pub proof fn law_empty_verdict_iff_empty_range<T: Ord>(
    value: &T,
    start: Endpoint<&T>,
    end: Endpoint<&T>,
)
    requires
        obeys_cmp::<T>(),
    ensures
        (rcmp_spec(value, start, end) == RangeOrdering::Empty) <==> is_empty_spec(start, end),
        !is_empty_spec(start, end) ==> Some(rcmp_spec(value, start, end)) == collapse(
            position_spec(value, start, end),
        ),
{
    if !is_empty_spec(start, end) {
        lemma_nonempty_has_verdict(value, start, end);
    }
}

/// A range with at least one unbounded side is never empty, whatever the order.
pub proof fn law_unbounded_side_never_empty<T: PartialOrd>(start: Endpoint<&T>, end: Endpoint<&T>)
    requires
        start is Unbounded || end is Unbounded,
    ensures
        !is_empty_spec(start, end),
{
}

/// Over a total order and a non-empty range, a value is `Below` exactly when it violates the
/// lower bound, `Inside` exactly when it satisfies both bounds, and `Above` exactly when it
/// violates the upper bound.
pub proof fn law_verdict_matches_bounds<T: Ord>(value: &T, start: Endpoint<&T>, end: Endpoint<&T>)
    requires
        obeys_cmp::<T>(),
        !is_empty_spec(start, end),
    ensures
        (rcmp_spec(value, start, end) == RangeOrdering::Below) <==> lower_ordering_spec(value, start)
            == BoundOrdering::Outside,
        (rcmp_spec(value, start, end) == RangeOrdering::Inside) <==> (lower_ordering_spec(
            value,
            start,
        ) == BoundOrdering::Within && upper_ordering_spec(value, end) == BoundOrdering::Within),
        (rcmp_spec(value, start, end) == RangeOrdering::Above) <==> upper_ordering_spec(value, end)
            == BoundOrdering::Outside,
{
    lemma_nonempty_has_verdict(value, start, end);
}

/// A position is inside the range exactly when it collapses to `Inside`.
pub proof fn law_inside_agrees_with_ordering(p: RangePosition)
    ensures
        (p.lower == BoundOrdering::Within && p.upper == BoundOrdering::Within) <==> collapse(p)
            == Some(RangeOrdering::Inside),
{
}

/// Over a total order and a non-empty range, the verdict never goes back as the value
/// grows: a smaller value is never further along `Below`, `Inside`, `Above` than a larger one.
pub proof fn law_verdict_monotone<T: Ord>(x: &T, y: &T, start: Endpoint<&T>, end: Endpoint<&T>)
    requires
        obeys_cmp::<T>(),
        !is_empty_spec(start, end),
        at_most(x, y),
    ensures
        verdict_rank(rcmp_spec(x, start, end)) <= verdict_rank(rcmp_spec(y, start, end)),
{
    lemma_total_order::<T>();
    lemma_nonempty_has_verdict(x, start, end);
    lemma_nonempty_has_verdict(y, start, end);
    match start {
        Endpoint::Included(s) | Endpoint::Excluded(s) => {
            assert(x.partial_cmp_spec(s) is Some);
            assert(y.partial_cmp_spec(s) is Some);
            assert(s.partial_cmp_spec(x) is Some);
            assert(s.partial_cmp_spec(y) is Some);
        },
        Endpoint::Unbounded => {},
    }
    match end {
        Endpoint::Included(e) | Endpoint::Excluded(e) => {
            assert(x.partial_cmp_spec(e) is Some);
            assert(y.partial_cmp_spec(e) is Some);
            assert(e.partial_cmp_spec(x) is Some);
            assert(e.partial_cmp_spec(y) is Some);
        },
        Endpoint::Unbounded => {},
    }
}

} // verus!
