//! The error surface of the layout engine. Every error is fatal to the
//! operation that raised it: geometry is pure, so no retry applies.

use vstd::prelude::*;

verus! {

/// What can go wrong while computing a layout.
#[derive(Clone, Copy, Debug, PartialEq, Eq, Structural)]
pub enum LayoutError {
    /// A row or column index was at or past its bound: a caller programming
    /// error, reported instead of producing silently wrong geometry.
    IndexOutOfRange,
    /// Barcode content is empty, holds a character outside the symbology's
    /// printable range, or its raster would not fit in memory.
    EncodingError,
}

impl LayoutError {
    /// A short description, for callers that report errors as text.
    pub fn describe(&self) -> (s: &'static str)
        ensures
            (*self is IndexOutOfRange) ==> s@ == "index out of range"@,
            (*self is EncodingError) ==> s@ == "barcode content cannot be encoded"@,
    {
        match self {
            LayoutError::IndexOutOfRange => "index out of range",
            LayoutError::EncodingError => "barcode content cannot be encoded",
        }
    }
}

} // verus!
