//! The ways in which decoding, projecting and resolving fail.

use crate::models::responses::ErrorResponse;
use vstd::prelude::*;

verus! {

/// A document could not be decoded.
#[derive(Debug, Clone, Copy, PartialEq, Eq)]
pub enum DecodeError {
    /// The text is not a JSON document.
    Syntax,
    /// A required member is missing or has the wrong shape.
    Shape,
}

/// What is wrong with the cell that a projection asked for.
#[derive(Debug, Clone, Copy, PartialEq, Eq)]
pub enum ProjectionFault {
    /// The row has no cell of the requested name.
    MissingColumn,
    /// The cell is there but holds no value.
    AbsentValue,
}

/// A requested column could not be projected out of a row.
#[derive(Debug, Clone, Copy, PartialEq, Eq)]
pub struct ProjectionError {
    /// The index of the row in the response.
    pub row: usize,
    /// The index of the column among those requested.
    pub column: usize,
    pub fault: ProjectionFault,
}

/// A value was handed to an operation that takes another kind of value.
#[derive(Debug, Clone, Copy, PartialEq, Eq)]
pub struct TypeMismatchError;

/// Everything that can go wrong between the answer to a query and its
/// projected rows.
#[derive(Debug, PartialEq, Eq)]
pub enum QueryError {
    /// The answer could not be decoded.
    Decode(DecodeError),
    /// A requested column could not be projected.
    Projection(ProjectionError),
    /// The service answered with a status that does not say success.
    Remote(ErrorResponse),
}

/// `Ok` of what was decoded, or the error for a wrong shape.
pub open spec fn shaped<T>(decoded: Option<T>) -> Result<T, DecodeError> {
    match decoded {
        Some(value) => Ok(value),
        None => Err(DecodeError::Shape),
    }
}

/// A result with its success value replaced by that value's model.
pub open spec fn modelled<T: DeepView, E>(result: Result<T, E>) -> Result<T::V, E> {
    match result {
        Ok(value) => Ok(value.deep_view()),
        Err(error) => Err(error),
    }
}

} // verus!
