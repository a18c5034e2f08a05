use vstd::prelude::*;

verus! {

/// Why a packing computation could not be carried out.
#[derive(Debug, Clone, Copy, PartialEq, Eq, Structural)]
pub enum PackError {
    /// A prism was given a dimension that is not strictly positive.
    InvalidDimension,
    /// A grid division was asked for with a zero product dimension.
    DomainError,
}

} // verus!
