//! The errors of drawing operations.

use vstd::prelude::*;

verus! {

/// Why an operation on a path or a drawing was refused. A refused operation
/// changes nothing.
#[derive(Clone, Copy, Debug, PartialEq, Eq, Structural)]
pub enum DrawingError {
    /// An index at or past the end of the sequence it addresses, or a
    /// replacement of the last element where there is none.
    OutOfRange,
    /// A resize of a drawing whose width is zero: no ratio scales from it.
    ZeroWidth,
    /// A scaled coordinate or stroke width would leave the range of `i64`.
    Overflow,
}

} // verus!
