use crate::bounds::{
    lower_outcome, position_in, position_spec, rcmp_bounds, rcmp_spec, upper_outcome, Endpoint,
};
use crate::position::{RangeOrdering, RangePosition};
use std::borrow::Borrow;
use std::ops::{
    Bound, Range, RangeBounds, RangeFrom, RangeFull, RangeInclusive, RangeTo, RangeToInclusive,
};
use vstd::laws_cmp::obeys_cmp;
use vstd::prelude::*;
use vstd::std_specs::cmp::PartialOrdSpec;

verus! {

/// `std::ops::RangeFrom`, whose one public field `start` Verus reads.
#[verifier::external_type_specification]
#[verifier::reject_recursive_types(Idx)]
pub struct ExRangeFrom<Idx>(RangeFrom<Idx>);

/// `std::ops::RangeTo`, whose one public field `end` Verus reads.
#[verifier::external_type_specification]
#[verifier::reject_recursive_types(Idx)]
pub struct ExRangeTo<Idx>(RangeTo<Idx>);

/// `std::ops::RangeToInclusive`, whose one public field `end` Verus reads.
#[verifier::external_type_specification]
#[verifier::reject_recursive_types(Idx)]
pub struct ExRangeToInclusive<Idx>(RangeToInclusive<Idx>);

/// `std::ops::RangeFull`, a unit struct.
#[verifier::external_type_specification]
pub struct ExRangeFull(RangeFull);

/// `std::ops::Bound`, whose three variants Verus reads.
#[verifier::external_type_specification]
#[verifier::reject_recursive_types(T)]
pub struct ExBound<T>(Bound<T>);

/// The endpoint that stands for a `std::ops::Bound` over references.
pub open spec fn endpoint_of<'a, T: ?Sized>(b: Bound<&'a T>) -> Endpoint<&'a T> {
    match b {
        Bound::Included(key) => Endpoint::Included(key),
        Bound::Excluded(key) => Endpoint::Excluded(key),
        Bound::Unbounded => Endpoint::Unbounded,
    }
}

/// The endpoint that stands for a borrowed `std::ops::Bound`.
pub open spec fn endpoint_of_ref<T>(b: &Bound<T>) -> Endpoint<&T> {
    match *b {
        Bound::Included(key) => Endpoint::Included(&key),
        Bound::Excluded(key) => Endpoint::Excluded(&key),
        Bound::Unbounded => Endpoint::Unbounded,
    }
}

/// Start bound of an inclusive range: std's `RangeBounds::start_bound` for
/// `RangeInclusive<T>` returns `Included(&start)`, which this claims.
#[verifier::external_body]
fn inclusive_start<T>(range: &RangeInclusive<T>) -> (r: Endpoint<&T>)
    ensures
        r == Endpoint::Included(&range@.start),
{
    match RangeBounds::<T>::start_bound(range) {
        Bound::Included(key) => Endpoint::Included(key),
        Bound::Excluded(key) => Endpoint::Excluded(key),
        Bound::Unbounded => Endpoint::Unbounded,
    }
}

/// End bound of an inclusive range: std's `RangeBounds::end_bound` for `RangeInclusive<T>`
/// returns `Included(&end)`, or `Excluded(&end)` once iteration has exhausted the range, which
/// this claims.
#[verifier::external_body]
fn inclusive_end<T>(range: &RangeInclusive<T>) -> (r: Endpoint<&T>)
    ensures
        r == (if range@.exhausted {
            Endpoint::Excluded(&range@.end)
        } else {
            Endpoint::Included(&range@.end)
        }),
{
    match RangeBounds::<T>::end_bound(range) {
        Bound::Included(key) => Endpoint::Included(key),
        Bound::Excluded(key) => Endpoint::Excluded(key),
        Bound::Unbounded => Endpoint::Unbounded,
    }
}

/// Start bound of an inclusive range over references: std's `RangeBounds::start_bound` for
/// `RangeInclusive<&T>` returns `Included(start)`, which this claims.
#[verifier::external_body]
fn inclusive_ref_start<'a, 'b, T>(range: &'b RangeInclusive<&'a T>) -> (r: Endpoint<&'b T>)
    ensures
        r == Endpoint::Included(range@.start),
{
    match RangeBounds::<T>::start_bound(range) {
        Bound::Included(key) => Endpoint::Included(key),
        Bound::Excluded(key) => Endpoint::Excluded(key),
        Bound::Unbounded => Endpoint::Unbounded,
    }
}

/// End bound of an inclusive range over references: std's `RangeBounds::end_bound` for
/// `RangeInclusive<&T>` returns `Included(end)` for a range that iteration has not exhausted,
/// which this claims. The `exhausted` branch cannot arise: only iteration sets that flag,
/// and iterating needs `Step` for `&T`, which std does not implement; `RangeInclusive::new`
/// leaves it false. It is written as for `RangeInclusive<T>` so that both forms share one
/// statement of their end.
#[verifier::external_body]
fn inclusive_ref_end<'a, 'b, T>(range: &'b RangeInclusive<&'a T>) -> (r: Endpoint<&'b T>)
    ensures
        r == (if range@.exhausted {
            Endpoint::Excluded(range@.end)
        } else {
            Endpoint::Included(range@.end)
        }),
{
    match RangeBounds::<T>::end_bound(range) {
        Bound::Included(key) => Endpoint::Included(key),
        Bound::Excluded(key) => Endpoint::Excluded(key),
        Bound::Unbounded => Endpoint::Unbounded,
    }
}

/// Helper trait to allow passing a range as either an owned value or a reference.
///
/// It is implemented for each range type of `std::ops` (over values and over references), for
/// the `(Bound, Bound)` pairs, and for every reference to one of them, so that the range type
/// `R` can be inferred from what the caller passes. It hands out the two ends of the range, as
/// `RangeBounds` gives them.
///
/// Unlike a blanket impl over every `RangeBounds` type, these impls do not cover a range type
/// of the caller's own: such a type is accepted by [`RangeOrd::rcmp`] and
/// [`PartialRangeOrd::partial_rcmp`] only once it implements `BorrowRange` itself. Its two
/// ends can also be compared directly with [`rcmp_bounds`](crate::bounds::rcmp_bounds) and
/// [`position_in`](crate::bounds::position_in).
pub trait BorrowRange<T: ?Sized, R>: Borrow<R> {
    /// The start of the range, as `RangeBounds::start_bound` gives it.
    spec fn start_spec(&self) -> Endpoint<&T>;

    /// The end of the range, as `RangeBounds::end_bound` gives it.
    spec fn end_spec(&self) -> Endpoint<&T>;

    /// Returns the start of the range.
    fn start_endpoint(&self) -> (r: Endpoint<&T>)
        ensures
            r == self.start_spec(),
    ;

    /// Returns the end of the range.
    fn end_endpoint(&self) -> (r: Endpoint<&T>)
        ensures
            r == self.end_spec(),
    ;
}

impl<T> BorrowRange<T, Range<T>> for Range<T> {
    open spec fn start_spec(&self) -> Endpoint<&T> {
        Endpoint::Included(&self.start)
    }

    open spec fn end_spec(&self) -> Endpoint<&T> {
        Endpoint::Excluded(&self.end)
    }

    fn start_endpoint(&self) -> (r: Endpoint<&T>) {
        Endpoint::Included(&self.start)
    }

    fn end_endpoint(&self) -> (r: Endpoint<&T>) {
        Endpoint::Excluded(&self.end)
    }
}

impl<'a, T> BorrowRange<T, Range<&'a T>> for Range<&'a T> {
    open spec fn start_spec(&self) -> Endpoint<&T> {
        Endpoint::Included(self.start)
    }

    open spec fn end_spec(&self) -> Endpoint<&T> {
        Endpoint::Excluded(self.end)
    }

    fn start_endpoint(&self) -> (r: Endpoint<&T>) {
        Endpoint::Included(self.start)
    }

    fn end_endpoint(&self) -> (r: Endpoint<&T>) {
        Endpoint::Excluded(self.end)
    }
}

impl<T> BorrowRange<T, RangeInclusive<T>> for RangeInclusive<T> {
    open spec fn start_spec(&self) -> Endpoint<&T> {
        Endpoint::Included(&self@.start)
    }

    open spec fn end_spec(&self) -> Endpoint<&T> {
        if self@.exhausted {
            Endpoint::Excluded(&self@.end)
        } else {
            Endpoint::Included(&self@.end)
        }
    }

    fn start_endpoint(&self) -> (r: Endpoint<&T>) {
        inclusive_start(self)
    }

    fn end_endpoint(&self) -> (r: Endpoint<&T>) {
        inclusive_end(self)
    }
}

impl<'a, T> BorrowRange<T, RangeInclusive<&'a T>> for RangeInclusive<&'a T> {
    open spec fn start_spec(&self) -> Endpoint<&T> {
        Endpoint::Included(self@.start)
    }

    open spec fn end_spec(&self) -> Endpoint<&T> {
        if self@.exhausted {
            Endpoint::Excluded(self@.end)
        } else {
            Endpoint::Included(self@.end)
        }
    }

    fn start_endpoint(&self) -> (r: Endpoint<&T>) {
        inclusive_ref_start(self)
    }

    fn end_endpoint(&self) -> (r: Endpoint<&T>) {
        inclusive_ref_end(self)
    }
}

impl<T> BorrowRange<T, RangeFrom<T>> for RangeFrom<T> {
    open spec fn start_spec(&self) -> Endpoint<&T> {
        Endpoint::Included(&self.start)
    }

    open spec fn end_spec(&self) -> Endpoint<&T> {
        Endpoint::Unbounded
    }

    fn start_endpoint(&self) -> (r: Endpoint<&T>) {
        Endpoint::Included(&self.start)
    }

    fn end_endpoint(&self) -> (r: Endpoint<&T>) {
        Endpoint::Unbounded
    }
}

impl<'a, T> BorrowRange<T, RangeFrom<&'a T>> for RangeFrom<&'a T> {
    open spec fn start_spec(&self) -> Endpoint<&T> {
        Endpoint::Included(self.start)
    }

    open spec fn end_spec(&self) -> Endpoint<&T> {
        Endpoint::Unbounded
    }

    fn start_endpoint(&self) -> (r: Endpoint<&T>) {
        Endpoint::Included(self.start)
    }

    fn end_endpoint(&self) -> (r: Endpoint<&T>) {
        Endpoint::Unbounded
    }
}

impl<T> BorrowRange<T, RangeTo<T>> for RangeTo<T> {
    open spec fn start_spec(&self) -> Endpoint<&T> {
        Endpoint::Unbounded
    }

    open spec fn end_spec(&self) -> Endpoint<&T> {
        Endpoint::Excluded(&self.end)
    }

    fn start_endpoint(&self) -> (r: Endpoint<&T>) {
        Endpoint::Unbounded
    }

    fn end_endpoint(&self) -> (r: Endpoint<&T>) {
        Endpoint::Excluded(&self.end)
    }
}

impl<'a, T> BorrowRange<T, RangeTo<&'a T>> for RangeTo<&'a T> {
    open spec fn start_spec(&self) -> Endpoint<&T> {
        Endpoint::Unbounded
    }

    open spec fn end_spec(&self) -> Endpoint<&T> {
        Endpoint::Excluded(self.end)
    }

    fn start_endpoint(&self) -> (r: Endpoint<&T>) {
        Endpoint::Unbounded
    }

    fn end_endpoint(&self) -> (r: Endpoint<&T>) {
        Endpoint::Excluded(self.end)
    }
}

impl<T> BorrowRange<T, RangeToInclusive<T>> for RangeToInclusive<T> {
    open spec fn start_spec(&self) -> Endpoint<&T> {
        Endpoint::Unbounded
    }

    open spec fn end_spec(&self) -> Endpoint<&T> {
        Endpoint::Included(&self.end)
    }

    fn start_endpoint(&self) -> (r: Endpoint<&T>) {
        Endpoint::Unbounded
    }

    fn end_endpoint(&self) -> (r: Endpoint<&T>) {
        Endpoint::Included(&self.end)
    }
}

impl<'a, T> BorrowRange<T, RangeToInclusive<&'a T>> for RangeToInclusive<&'a T> {
    open spec fn start_spec(&self) -> Endpoint<&T> {
        Endpoint::Unbounded
    }

    open spec fn end_spec(&self) -> Endpoint<&T> {
        Endpoint::Included(self.end)
    }

    fn start_endpoint(&self) -> (r: Endpoint<&T>) {
        Endpoint::Unbounded
    }

    fn end_endpoint(&self) -> (r: Endpoint<&T>) {
        Endpoint::Included(self.end)
    }
}

impl<T: ?Sized> BorrowRange<T, RangeFull> for RangeFull {
    open spec fn start_spec(&self) -> Endpoint<&T> {
        Endpoint::Unbounded
    }

    open spec fn end_spec(&self) -> Endpoint<&T> {
        Endpoint::Unbounded
    }

    fn start_endpoint(&self) -> (r: Endpoint<&T>) {
        Endpoint::Unbounded
    }

    fn end_endpoint(&self) -> (r: Endpoint<&T>) {
        Endpoint::Unbounded
    }
}

impl<T> BorrowRange<T, (Bound<T>, Bound<T>)> for (Bound<T>, Bound<T>) {
    open spec fn start_spec(&self) -> Endpoint<&T> {
        endpoint_of_ref(&self.0)
    }

    open spec fn end_spec(&self) -> Endpoint<&T> {
        endpoint_of_ref(&self.1)
    }

    fn start_endpoint(&self) -> (r: Endpoint<&T>) {
        match &self.0 {
            Bound::Included(key) => Endpoint::Included(key),
            Bound::Excluded(key) => Endpoint::Excluded(key),
            Bound::Unbounded => Endpoint::Unbounded,
        }
    }

    fn end_endpoint(&self) -> (r: Endpoint<&T>) {
        match &self.1 {
            Bound::Included(key) => Endpoint::Included(key),
            Bound::Excluded(key) => Endpoint::Excluded(key),
            Bound::Unbounded => Endpoint::Unbounded,
        }
    }
}

impl<'a, T: ?Sized> BorrowRange<T, (Bound<&'a T>, Bound<&'a T>)> for (Bound<&'a T>, Bound<&'a T>) {
    open spec fn start_spec(&self) -> Endpoint<&T> {
        endpoint_of(self.0)
    }

    open spec fn end_spec(&self) -> Endpoint<&T> {
        endpoint_of(self.1)
    }

    fn start_endpoint(&self) -> (r: Endpoint<&T>) {
        match self.0 {
            Bound::Included(key) => Endpoint::Included(key),
            Bound::Excluded(key) => Endpoint::Excluded(key),
            Bound::Unbounded => Endpoint::Unbounded,
        }
    }

    fn end_endpoint(&self) -> (r: Endpoint<&T>) {
        match self.1 {
            Bound::Included(key) => Endpoint::Included(key),
            Bound::Excluded(key) => Endpoint::Excluded(key),
            Bound::Unbounded => Endpoint::Unbounded,
        }
    }
}

impl<'a, T: ?Sized, R: BorrowRange<T, R>> BorrowRange<T, R> for &'a R {
    open spec fn start_spec(&self) -> Endpoint<&T> {
        (**self).start_spec()
    }

    open spec fn end_spec(&self) -> Endpoint<&T> {
        (**self).end_spec()
    }

    fn start_endpoint(&self) -> (r: Endpoint<&T>) {
        (**self).start_endpoint()
    }

    fn end_endpoint(&self) -> (r: Endpoint<&T>) {
        (**self).end_endpoint()
    }
}

/// Trait to provide the [`rcmp`](RangeOrd::rcmp) method, which compares a value with a range.
/// A blanket implementation is provided for all types that implement [`Ord`].
pub trait RangeOrd: Ord + Sized {
    /// Compares the value with a range of values. Returns whether the value is below, inside,
    /// or above the range, or whether the range is empty.
    fn rcmp<R: RangeBounds<Self>, B: BorrowRange<Self, R>>(&self, range: B) -> (r: RangeOrdering)
        requires
            obeys_cmp::<Self>(),
        ensures
            r == rcmp_spec(self, range.start_spec(), range.end_spec()),
    ;
}

impl<T: Ord> RangeOrd for T {
    fn rcmp<R: RangeBounds<Self>, B: BorrowRange<Self, R>>(&self, range: B) -> (r: RangeOrdering) {
        let start = range.start_endpoint();
        let end = range.end_endpoint();
        rcmp_bounds(self, start, end)
    }
}

/// Trait to provide the [`partial_rcmp`](PartialRangeOrd::partial_rcmp) method, which compares
/// a value with a range. A blanket implementation is provided for all types that implement
/// [`PartialOrd`].
pub trait PartialRangeOrd: PartialOrd + Sized {
    /// Compares the value with a range of values, returning its full [`RangePosition`]: the
    /// pair of its relationships to the lower and the upper bound.
    fn partial_rcmp<R: RangeBounds<Self>, B: BorrowRange<Self, R>>(&self, range: B) -> (r:
        RangePosition)
        ensures
            Self::obeys_partial_cmp_spec() ==> r == position_spec(
                self,
                range.start_spec(),
                range.end_spec(),
            ),
            lower_outcome(self, range.start_spec(), r.lower),
            upper_outcome(self, range.end_spec(), r.upper),
    ;
}

impl<T: PartialOrd> PartialRangeOrd for T {
    fn partial_rcmp<R: RangeBounds<Self>, B: BorrowRange<Self, R>>(&self, range: B) -> (r:
        RangePosition) {
        let start = range.start_endpoint();
        let end = range.end_endpoint();
        position_in(self, start, end)
    }
}

} // verus!
