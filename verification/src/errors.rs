use vstd::prelude::*;

verus! {

/// The failures the atlas engine can report.
///
/// Every operation reports bad input as a typed value of this kind;
/// verified code never panics.
#[derive(Clone, Copy, Debug, PartialEq, Eq, Structural)]
pub enum AtlasError {
    /// A source image's dimensions do not divide evenly by the layout's
    /// column and row counts, or a zero target cell size was requested.
    DimensionError,
    /// A table-resolved source rectangle exceeds the actual image bounds,
    /// which indicates a corrupt or mismatched source image.
    OutOfBounds,
    /// A bad configuration value, or a failure while persisting the
    /// registry's descriptor document.
    InvalidInput,
}

impl AtlasError {
    /// A short description of the failure, for callers that print it.
    pub fn as_str(&self) -> (r: &'static str)
        ensures
            self is DimensionError ==> r@ == "image dimensions do not divide evenly by the layout grid"@,
            self is OutOfBounds ==> r@ == "a source rectangle exceeds the image bounds"@,
            self is InvalidInput ==> r@ == "invalid configuration value or descriptor write failure"@,
    {
        match self {
            AtlasError::DimensionError => "image dimensions do not divide evenly by the layout grid",
            AtlasError::OutOfBounds => "a source rectangle exceeds the image bounds",
            AtlasError::InvalidInput => "invalid configuration value or descriptor write failure",
        }
    }
}

} // verus!
