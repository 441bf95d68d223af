use vstd::prelude::*;

verus! {

/// What can go wrong when a tabular column is looked up. Each variant
/// carries a human-readable description.
///
/// This sits beside the renderer as a small accessor-layer vocabulary; the
/// sources that produce these values live with the surrounding program,
/// not with the rendering core.
#[derive(Clone, PartialEq, Eq, Debug)]
pub enum DataError {
    /// No column of the requested name exists.
    ColumnNotFound(String),
    /// The column exists but does not hold the requested element type.
    TypeMismatch(String),
    /// The column could not be converted to a contiguous series.
    SeriesConvertionFailure(String),
    /// The underlying dataframe library reported a failure.
    PolarsError(String),
}

impl DataError {
    /// The description carried by the error, whichever variant it is.
    pub fn message(&self) -> (r: &String)
        ensures
            r@ == match *self {
                DataError::ColumnNotFound(s) => s@,
                DataError::TypeMismatch(s) => s@,
                DataError::SeriesConvertionFailure(s) => s@,
                DataError::PolarsError(s) => s@,
            },
    {
        match self {
            DataError::ColumnNotFound(s) => s,
            DataError::TypeMismatch(s) => s,
            DataError::SeriesConvertionFailure(s) => s,
            DataError::PolarsError(s) => s,
        }
    }
}

} // verus!
