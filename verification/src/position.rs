use vstd::prelude::*;

verus! {

/// Simplified verdict of comparing a value with a range, obtained for totally ordered
/// types or by collapsing a [`RangePosition`] through [`RangePosition::ordering`].
#[derive(Clone, Copy, Debug, PartialEq, Eq, Hash, Structural)]
pub enum RangeOrdering {
    /// The value is below (all) the range. For instance, `-1` is below the range `0..42`.
    Below,
    /// The value is contained inside the range. For instance, `34` is inside the range `0..42`.
    Inside,
    /// The value is above (all) the range. For instance, `314` is above the range `0..42`.
    Above,
    /// The range is empty, so the value cannot be meaningfully positioned. For instance,
    /// `42..0` is empty.
    Empty,
}

/// Position of a value relative to a single bound of a range.
///
/// For a lower bound, `Within` means the value satisfies the bound (it is greater than, or
/// equal to, the bound depending on inclusiveness) and `Outside` means it is below it. For an
/// upper bound, the meaning is mirrored.
#[derive(Clone, Copy, Debug, PartialEq, Eq, Hash, Structural)]
pub enum BoundOrdering {
    /// The value is on the inner side of the bound (it satisfies the bound).
    Within,
    /// The value is on the outer side of the bound (it violates the bound).
    Outside,
    /// The value is incomparable with the bound. This can only happen for types whose order
    /// is partial.
    Incomparable,
}

/// Full position of a value relative to a range: the pair of its relationships to the
/// lower and the upper bound.
#[derive(Clone, Copy, Debug, PartialEq, Eq, Hash, Structural)]
pub struct RangePosition {
    /// Relationship of the value to the lower bound. `Within` means the value satisfies
    /// the lower bound, `Outside` means it is below it.
    pub lower: BoundOrdering,
    /// Relationship of the value to the upper bound. `Within` means the value satisfies
    /// the upper bound, `Outside` means it is above it.
    pub upper: BoundOrdering,
}

/// The single verdict that a position collapses to, when there is one.
pub open spec fn collapse(p: RangePosition) -> Option<RangeOrdering> {
    match (p.lower, p.upper) {
        (BoundOrdering::Within, BoundOrdering::Within) => Some(RangeOrdering::Inside),
        (BoundOrdering::Outside, BoundOrdering::Within) => Some(RangeOrdering::Below),
        (BoundOrdering::Within, BoundOrdering::Outside) => Some(RangeOrdering::Above),
        (BoundOrdering::Outside, BoundOrdering::Outside) => Some(RangeOrdering::Empty),
        _ => None,
    }
}

impl RangePosition {
    /// Returns whether the value lies inside the range, i.e. it satisfies both bounds.
    pub fn is_inside(&self) -> (r: bool)
        ensures
            r <==> (self.lower == BoundOrdering::Within && self.upper == BoundOrdering::Within),
    {
        match (self.lower, self.upper) {
            (BoundOrdering::Within, BoundOrdering::Within) => true,
            _ => false,
        }
    }

    /// Collapses the pair into a simple [`RangeOrdering`] when possible.
    ///
    /// Returns `None` when the value is incomparable with at least one bound. The
    /// `(Outside, Outside)` pair, below the lower bound and above the upper one at once, can
    /// only come from an empty (inverted) range and is reported as [`RangeOrdering::Empty`].
    pub fn ordering(&self) -> (r: Option<RangeOrdering>)
        ensures
            r == collapse(*self),
    {
        match (self.lower, self.upper) {
            (BoundOrdering::Within, BoundOrdering::Within) => Some(RangeOrdering::Inside),
            (BoundOrdering::Outside, BoundOrdering::Within) => Some(RangeOrdering::Below),
            (BoundOrdering::Within, BoundOrdering::Outside) => Some(RangeOrdering::Above),
            (BoundOrdering::Outside, BoundOrdering::Outside) => Some(RangeOrdering::Empty),
            _ => None,
        }
    }
}

} // verus!
