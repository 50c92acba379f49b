use vstd::prelude::*;

verus! {

/// Different kinds of errors that might occur.
#[derive(Copy, Clone, Eq, PartialEq, Debug, Structural)]
pub enum Error {
    /// An index lies outside the map.
    OutOfBounds,
    /// No section or sub-section carries the letter that was asked for.
    NotFound,
}

} // verus!
