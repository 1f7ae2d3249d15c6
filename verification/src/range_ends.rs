use crate::bounds::{rcmp_spec, Endpoint};
use crate::compare::BorrowRange;
use crate::laws::{at_most, below, law_verdict_matches_bounds, lemma_total_order};
use crate::position::RangeOrdering;
use std::ops::{Bound, Range, RangeFrom, RangeFull, RangeInclusive, RangeTo, RangeToInclusive};
use vstd::laws_cmp::obeys_cmp;
use vstd::prelude::*;
use vstd::std_specs::cmp::PartialOrdSpec;

verus! {

/// Passing a range by reference does not change its ends: the start and the end of `&r`
/// are the start and the end of `r`.
pub proof fn law_reference_keeps_ends<T: ?Sized, R: BorrowRange<T, R>>(r: &R)
    ensures
        BorrowRange::<T, R>::start_spec(&r) == BorrowRange::<T, R>::start_spec(r),
        BorrowRange::<T, R>::end_spec(&r) == BorrowRange::<T, R>::end_spec(r),
{
}

/// The ends of a pair of bounds: the start is read from the first bound alone and the end from
/// the second alone, each keeping its key and whether that key is included.
pub proof fn law_bound_pair_ends<T>(p: (Bound<T>, Bound<T>))
    ensures
        BorrowRange::<T, (Bound<T>, Bound<T>)>::start_spec(&p) == match p.0 {
            Bound::Included(k) => Endpoint::Included(&k),
            Bound::Excluded(k) => Endpoint::Excluded(&k),
            Bound::Unbounded => Endpoint::Unbounded,
        },
        BorrowRange::<T, (Bound<T>, Bound<T>)>::end_spec(&p) == match p.1 {
            Bound::Included(k) => Endpoint::Included(&k),
            Bound::Excluded(k) => Endpoint::Excluded(&k),
            Bound::Unbounded => Endpoint::Unbounded,
        },
{
}

/// The ends of a pair of bounds over references: the start is read from the first bound alone
/// and the end from the second alone, each keeping its key and whether that key is included.
pub proof fn law_bound_ref_pair_ends<'a, T: ?Sized>(p: (Bound<&'a T>, Bound<&'a T>))
    ensures
        BorrowRange::<T, (Bound<&'a T>, Bound<&'a T>)>::start_spec(&p) == match p.0 {
            Bound::Included(k) => Endpoint::Included(k),
            Bound::Excluded(k) => Endpoint::Excluded(k),
            Bound::Unbounded => Endpoint::Unbounded,
        },
        BorrowRange::<T, (Bound<&'a T>, Bound<&'a T>)>::end_spec(&p) == match p.1 {
            Bound::Included(k) => Endpoint::Included(k),
            Bound::Excluded(k) => Endpoint::Excluded(k),
            Bound::Unbounded => Endpoint::Unbounded,
        },
{
}

/// The ends of the range types of `std::ops`, as `RangeBounds` gives them: `a..b` starts at
/// `a` included and ends at `b` excluded, `a..` and `..b` and `..=b` have one unbounded side,
/// `a..=b` ends at `b` included until iteration exhausts it, and `..` is unbounded on both
/// sides.
pub proof fn law_std_range_ends<T>(
    r: Range<T>,
    i: RangeInclusive<T>,
    f: RangeFrom<T>,
    t: RangeTo<T>,
    ti: RangeToInclusive<T>,
    u: RangeFull,
)
    ensures
        BorrowRange::<T, Range<T>>::start_spec(&r) == Endpoint::Included(&r.start),
        BorrowRange::<T, Range<T>>::end_spec(&r) == Endpoint::Excluded(&r.end),
        BorrowRange::<T, RangeInclusive<T>>::start_spec(&i) == Endpoint::Included(&i@.start),
        !i@.exhausted ==> BorrowRange::<T, RangeInclusive<T>>::end_spec(&i) == Endpoint::Included(
            &i@.end,
        ),
        i@.exhausted ==> BorrowRange::<T, RangeInclusive<T>>::end_spec(&i) == Endpoint::Excluded(
            &i@.end,
        ),
        BorrowRange::<T, RangeFrom<T>>::start_spec(&f) == Endpoint::Included(&f.start),
        BorrowRange::<T, RangeFrom<T>>::end_spec(&f) == Endpoint::<&T>::Unbounded,
        BorrowRange::<T, RangeTo<T>>::start_spec(&t) == Endpoint::<&T>::Unbounded,
        BorrowRange::<T, RangeTo<T>>::end_spec(&t) == Endpoint::Excluded(&t.end),
        BorrowRange::<T, RangeToInclusive<T>>::start_spec(&ti) == Endpoint::<&T>::Unbounded,
        BorrowRange::<T, RangeToInclusive<T>>::end_spec(&ti) == Endpoint::Included(&ti.end),
        BorrowRange::<T, RangeFull>::start_spec(&u) == Endpoint::<&T>::Unbounded,
        BorrowRange::<T, RangeFull>::end_spec(&u) == Endpoint::<&T>::Unbounded,
{
}

/// The ends of the range types of `std::ops` over references, as `RangeBounds` gives them.
pub proof fn law_std_ref_range_ends<'a, T>(
    r: Range<&'a T>,
    i: RangeInclusive<&'a T>,
    f: RangeFrom<&'a T>,
    t: RangeTo<&'a T>,
    ti: RangeToInclusive<&'a T>,
)
    ensures
        BorrowRange::<T, Range<&'a T>>::start_spec(&r) == Endpoint::Included(r.start),
        BorrowRange::<T, Range<&'a T>>::end_spec(&r) == Endpoint::Excluded(r.end),
        BorrowRange::<T, RangeInclusive<&'a T>>::start_spec(&i) == Endpoint::Included(i@.start),
        !i@.exhausted ==> BorrowRange::<T, RangeInclusive<&'a T>>::end_spec(&i)
            == Endpoint::Included(i@.end),
        BorrowRange::<T, RangeFrom<&'a T>>::start_spec(&f) == Endpoint::Included(f.start),
        BorrowRange::<T, RangeFrom<&'a T>>::end_spec(&f) == Endpoint::<&T>::Unbounded,
        BorrowRange::<T, RangeTo<&'a T>>::start_spec(&t) == Endpoint::<&T>::Unbounded,
        BorrowRange::<T, RangeTo<&'a T>>::end_spec(&t) == Endpoint::Excluded(t.end),
        BorrowRange::<T, RangeToInclusive<&'a T>>::start_spec(&ti) == Endpoint::<&T>::Unbounded,
        BorrowRange::<T, RangeToInclusive<&'a T>>::end_spec(&ti) == Endpoint::Included(ti.end),
{
}

/// Over a total order, a value compared with a non-empty pair of bounds is `Below` exactly
/// when it violates the first bound (under an included key, or at most an excluded key) and
/// `Above` exactly when it violates the second (over an included key, or at least an excluded
/// key); an unbounded side is never violated.
pub proof fn law_bound_pair_verdict<T: Ord>(value: &T, p: (Bound<T>, Bound<T>))
    requires
        obeys_cmp::<T>(),
        !crate::bounds::is_empty_spec(
            BorrowRange::<T, (Bound<T>, Bound<T>)>::start_spec(&p),
            BorrowRange::<T, (Bound<T>, Bound<T>)>::end_spec(&p),
        ),
    ensures
        (rcmp_spec(
            value,
            BorrowRange::<T, (Bound<T>, Bound<T>)>::start_spec(&p),
            BorrowRange::<T, (Bound<T>, Bound<T>)>::end_spec(&p),
        ) == RangeOrdering::Below) <==> match p.0 {
            Bound::Included(k) => below(value, &k),
            Bound::Excluded(k) => at_most(value, &k),
            Bound::Unbounded => false,
        },
        (rcmp_spec(
            value,
            BorrowRange::<T, (Bound<T>, Bound<T>)>::start_spec(&p),
            BorrowRange::<T, (Bound<T>, Bound<T>)>::end_spec(&p),
        ) == RangeOrdering::Above) <==> match p.1 {
            Bound::Included(k) => below(&k, value),
            Bound::Excluded(k) => at_most(&k, value),
            Bound::Unbounded => false,
        },
{
    lemma_total_order::<T>();
    law_verdict_matches_bounds(
        value,
        BorrowRange::<T, (Bound<T>, Bound<T>)>::start_spec(&p),
        BorrowRange::<T, (Bound<T>, Bound<T>)>::end_spec(&p),
    );
    match p.1 {
        Bound::Included(k) | Bound::Excluded(k) => {
            assert(value.partial_cmp_spec(&k) is Some);
            assert(k.partial_cmp_spec(value) is Some);
        },
        Bound::Unbounded => {},
    }
}

} // verus!
