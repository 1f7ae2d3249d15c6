//! Comparison of a value with a range of values.
pub mod bounds;
pub mod compare;
pub mod laws;
pub mod position;
pub mod range_ends;

pub use bounds::{
    lower_ordering, lower_verdict, position_in, range_is_empty, rcmp_bounds, upper_ordering,
    upper_verdict, Endpoint,
};
pub use compare::{BorrowRange, PartialRangeOrd, RangeOrd};
pub use position::{BoundOrdering, RangeOrdering, RangePosition};
