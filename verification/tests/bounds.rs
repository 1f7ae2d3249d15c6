use lib::{
    lower_ordering, lower_verdict, position_in, range_is_empty, rcmp_bounds, upper_ordering,
    upper_verdict, BoundOrdering, Endpoint, PartialRangeOrd, RangeOrd, RangeOrdering,
    RangePosition,
};
use std::cmp::Ordering;

const W: BoundOrdering = BoundOrdering::Within;
const O: BoundOrdering = BoundOrdering::Outside;
const I: BoundOrdering = BoundOrdering::Incomparable;

fn rank(o: RangeOrdering) -> u8 {
    match o {
        RangeOrdering::Below => 0,
        RangeOrdering::Inside => 1,
        RangeOrdering::Above => 2,
        RangeOrdering::Empty => 3,
    }
}

#[test]
fn verdicts_from_comparisons() {
    assert_eq!(lower_verdict(true, Some(Ordering::Less)), O);
    assert_eq!(lower_verdict(true, Some(Ordering::Equal)), W);
    assert_eq!(lower_verdict(false, Some(Ordering::Equal)), O);
    assert_eq!(lower_verdict(false, Some(Ordering::Greater)), W);
    assert_eq!(lower_verdict(true, None), I);
    assert_eq!(upper_verdict(true, Some(Ordering::Greater)), O);
    assert_eq!(upper_verdict(true, Some(Ordering::Equal)), W);
    assert_eq!(upper_verdict(false, Some(Ordering::Equal)), O);
    assert_eq!(upper_verdict(false, Some(Ordering::Less)), W);
    assert_eq!(upper_verdict(false, None), I);
}

#[test]
fn single_bounds() {
    assert_eq!(lower_ordering(&5, Endpoint::Included(&5)), W);
    assert_eq!(lower_ordering(&5, Endpoint::Excluded(&5)), O);
    assert_eq!(lower_ordering(&4, Endpoint::Included(&5)), O);
    assert_eq!(lower_ordering(&4, Endpoint::Unbounded), W);
    assert_eq!(upper_ordering(&5, Endpoint::Included(&5)), W);
    assert_eq!(upper_ordering(&5, Endpoint::Excluded(&5)), O);
    assert_eq!(upper_ordering(&6, Endpoint::Included(&5)), O);
    assert_eq!(upper_ordering(&6, Endpoint::Unbounded), W);
}

#[test]
fn positions() {
    let p = position_in(&3, Endpoint::Included(&1), Endpoint::Excluded(&3));
    assert_eq!(p, RangePosition { lower: W, upper: O });
    assert!(!p.is_inside());
    assert_eq!(p.ordering(), Some(RangeOrdering::Above));
    let q = position_in(&2, Endpoint::Included(&1), Endpoint::Excluded(&3));
    assert!(q.is_inside());
    assert_eq!(q.ordering(), Some(RangeOrdering::Inside));
    assert_eq!(RangePosition { lower: O, upper: W }.ordering(), Some(RangeOrdering::Below));
    assert_eq!(RangePosition { lower: O, upper: O }.ordering(), Some(RangeOrdering::Empty));
    assert_eq!(RangePosition { lower: W, upper: I }.ordering(), None);
    assert_eq!(RangePosition { lower: I, upper: O }.ordering(), None);
    assert!(!RangePosition { lower: W, upper: I }.is_inside());
}

#[test]
fn emptiness() {
    assert!(range_is_empty(Endpoint::Included(&2), Endpoint::Included(&1)));
    assert!(!range_is_empty(Endpoint::Included(&1), Endpoint::Included(&1)));
    assert!(range_is_empty(Endpoint::Included(&1), Endpoint::Excluded(&1)));
    assert!(range_is_empty(Endpoint::Excluded(&1), Endpoint::Included(&1)));
    assert!(range_is_empty(Endpoint::Excluded(&1), Endpoint::Excluded(&1)));
    assert!(!range_is_empty(Endpoint::Excluded(&0), Endpoint::Excluded(&2)));
    assert!(!range_is_empty(Endpoint::Unbounded, Endpoint::Excluded(&0u32)));
    assert!(!range_is_empty::<i32>(Endpoint::Included(&7), Endpoint::Unbounded));
}

#[test]
fn total_verdicts() {
    assert_eq!(rcmp_bounds(&15, Endpoint::Included(&20), Endpoint::Excluded(&30)), RangeOrdering::Below);
    assert_eq!(rcmp_bounds(&25, Endpoint::Included(&20), Endpoint::Excluded(&30)), RangeOrdering::Inside);
    assert_eq!(rcmp_bounds(&30, Endpoint::Included(&20), Endpoint::Excluded(&30)), RangeOrdering::Above);
    assert_eq!(rcmp_bounds(&25, Endpoint::Included(&30), Endpoint::Excluded(&20)), RangeOrdering::Empty);
    assert_eq!(rcmp_bounds(&25, Endpoint::Unbounded, Endpoint::Unbounded), RangeOrdering::Inside);
}

#[test]
fn readme_examples() {
    assert_eq!(15.rcmp(20..30), RangeOrdering::Below);
    assert_eq!(25.rcmp(20..30), RangeOrdering::Inside);
    assert_eq!(35.rcmp(20..30), RangeOrdering::Above);
    assert_eq!(25.rcmp(30..20), RangeOrdering::Empty);
    assert_eq!(0.rcmp(0..0), RangeOrdering::Empty);
    assert_eq!(1.5_f64.partial_rcmp(2.0..3.0).ordering(), Some(RangeOrdering::Below));
    assert_eq!(2.5_f64.partial_rcmp(2.0..3.0).ordering(), Some(RangeOrdering::Inside));
    assert_eq!(3.5_f64.partial_rcmp(2.0..3.0).ordering(), Some(RangeOrdering::Above));
    assert_eq!(f64::NAN.partial_rcmp(2.0..3.0).ordering(), None);
    assert!(2.5_f64.partial_rcmp(2.0..3.0).is_inside());
    assert!(!3.5_f64.partial_rcmp(2.0..3.0).is_inside());
}

#[test]
fn verdict_is_monotone_in_the_value() {
    let ranges = [(3, 7), (3, 4), (0, 10), (5, 6)];
    for (lo, hi) in ranges {
        let mut last = 0;
        for v in -2..12 {
            let r = v.rcmp(lo..hi);
            assert!(rank(r) >= last);
            last = rank(r);
            let s = v.rcmp(lo..=hi);
            assert!(s != RangeOrdering::Empty);
        }
    }
}

#[test]
fn empty_verdict_only_for_empty_ranges() {
    for v in -3..3 {
        assert_eq!(v.rcmp(2..1), RangeOrdering::Empty);
        assert_eq!(v.rcmp(1..1), RangeOrdering::Empty);
        assert_ne!(v.rcmp(1..=1), RangeOrdering::Empty);
        assert_ne!(v.rcmp(..1), RangeOrdering::Empty);
        assert_ne!(v.rcmp(5..), RangeOrdering::Empty);
        let p = v.partial_rcmp(1..=1);
        assert_ne!(p, RangePosition { lower: O, upper: O });
    }
    // Being below the lower bound and above the upper one at once needs an inverted range.
    assert_eq!(3.partial_rcmp(5..1), RangePosition { lower: O, upper: O });
}

#[test]
fn verdict_matches_the_bounds() {
    for v in 0..10 {
        let p = v.partial_rcmp(3..7);
        let r = v.rcmp(3..7);
        assert_eq!(Some(r), p.ordering());
        assert_eq!(r == RangeOrdering::Below, p.lower == O);
        assert_eq!(r == RangeOrdering::Above, p.upper == O);
        assert_eq!(r == RangeOrdering::Inside, p.is_inside());
        assert_ne!(p.lower, I);
        assert_ne!(p.upper, I);
    }
}

#[test]
fn inclusive_range_ends() {
    assert_eq!(3.rcmp(1..=3), RangeOrdering::Inside);
    assert_eq!(4.rcmp(1..=3), RangeOrdering::Above);
    assert_eq!(0.rcmp(1..=3), RangeOrdering::Below);
    assert_eq!(3.rcmp(&1..=&3), RangeOrdering::Inside);
    // Once iteration has exhausted an inclusive range, its end bound becomes exclusive.
    let mut r = 0..=0;
    assert_eq!(r.next(), Some(0));
    assert_eq!(0.rcmp(&r), RangeOrdering::Empty);
    assert_eq!(0.partial_rcmp(&r), RangePosition { lower: W, upper: O });
    let mut s = 0..=5;
    assert_eq!(s.next_back(), Some(5));
    assert_eq!(5.rcmp(&s), RangeOrdering::Above);
    assert_eq!(4.rcmp(&s), RangeOrdering::Inside);
}

#[test]
fn ranges_passed_by_reference() {
    let r = 2..5;
    assert_eq!(1.rcmp(&r), RangeOrdering::Below);
    let f = 2..;
    assert_eq!(2.rcmp(&f), RangeOrdering::Inside);
    let t = ..=2;
    assert_eq!(3.rcmp(&t), RangeOrdering::Above);
    assert_eq!(3.rcmp(&(..)), RangeOrdering::Inside);
}

/// Divisibility of absolute values: a partial order in which `2` and `3` are incomparable.
#[derive(Clone, Copy, Debug, PartialEq)]
struct Div(i32);

impl PartialOrd for Div {
    fn partial_cmp(&self, other: &Self) -> Option<Ordering> {
        let a = self.0.abs();
        let b = other.0.abs();
        if a == b {
            Some(Ordering::Equal)
        } else if a < b && b % a == 0 {
            Some(Ordering::Less)
        } else if a > b && a % b == 0 {
            Some(Ordering::Greater)
        } else {
            None
        }
    }
}

#[test]
fn bound_sides_are_closed_under_a_partial_order() {
    // Multiples of 2 satisfy the lower bound `Div(2)..`; so do multiples of those.
    assert_eq!(lower_ordering(&Div(4), Endpoint::Included(&Div(2))), W);
    assert_eq!(lower_ordering(&Div(8), Endpoint::Included(&Div(2))), W);
    assert_eq!(lower_ordering(&Div(3), Endpoint::Included(&Div(2))), I);
    // Divisors of 12 satisfy the upper bound `..=Div(12)`; so do divisors of those.
    assert_eq!(upper_ordering(&Div(6), Endpoint::Included(&Div(12))), W);
    assert_eq!(upper_ordering(&Div(3), Endpoint::Included(&Div(12))), W);
    assert_eq!(upper_ordering(&Div(5), Endpoint::Included(&Div(12))), I);
    // (Outside, Outside) needs an inverted range.
    assert_eq!(Div(4).partial_rcmp(Div(8)..Div(2)), RangePosition { lower: O, upper: O });
    assert!(range_is_empty(Endpoint::Included(&8), Endpoint::Excluded(&2)));
}
