//! The errors that the operations return.

use vstd::prelude::*;

verus! {

/// Why an operation did not go through. Each kind carries a sentence for a
/// human reader.
#[derive(Debug, PartialEq, Eq)]
pub enum CustomError {
    /// No record of the kind asked for is stored under the id.
    NotFound(String),
    /// A required field of the payload is empty, or zero where a number is
    /// required.
    EmptyFields(String),
    /// The backing storage cannot take the request: the identifier sequence is
    /// used up, or the record is larger than a table can hold. Nothing was
    /// changed.
    StorageFailure(String),
}

/// A [`CustomError`] in specifications.
pub enum Failure {
    NotFound(Seq<char>),
    EmptyFields(Seq<char>),
    StorageFailure(Seq<char>),
}

impl Failure {
    /// The sentence that the failure carries.
    pub open spec fn message(self) -> Seq<char> {
        match self {
            Failure::NotFound(text) => text,
            Failure::EmptyFields(text) => text,
            Failure::StorageFailure(text) => text,
        }
    }
}

impl View for CustomError {
    type V = Failure;

    open spec fn view(&self) -> Failure {
        match self {
            CustomError::NotFound(text) => Failure::NotFound(text@),
            CustomError::EmptyFields(text) => Failure::EmptyFields(text@),
            CustomError::StorageFailure(text) => Failure::StorageFailure(text@),
        }
    }
}

impl Clone for CustomError {
    fn clone(&self) -> (copy: Self)
        ensures
            copy@ == self@,
    {
        match self {
            CustomError::NotFound(text) => CustomError::NotFound(text.clone()),
            CustomError::EmptyFields(text) => CustomError::EmptyFields(text.clone()),
            CustomError::StorageFailure(text) => CustomError::StorageFailure(text.clone()),
        }
    }
}

impl CustomError {
    /// The sentence that the error carries.
    pub fn description(&self) -> (text: &str)
        ensures
            text@ == self@.message(),
    {
        match self {
            CustomError::NotFound(text) => text.as_str(),
            CustomError::EmptyFields(text) => text.as_str(),
            CustomError::StorageFailure(text) => text.as_str(),
        }
    }
}

/// The sentence of the failure to issue another identifier.
pub open spec fn ids_exhausted() -> Seq<char> {
    "The identifier sequence is exhausted"@
}

/// The sentence of the failure to store an oversized record.
pub open spec fn record_too_large() -> Seq<char> {
    "The record is too large to be stored"@
}

/// The result of an operation in specifications: the view of the record or
/// of the error.
pub open spec fn outcome<T: View>(r: Result<T, CustomError>) -> Result<T::V, Failure> {
    match r {
        Ok(value) => Ok(value@),
        Err(error) => Err(error@),
    }
}

/// The error for an exhausted identifier sequence.
pub fn exhausted_error() -> (e: CustomError)
    ensures
        e@ == Failure::StorageFailure(ids_exhausted()),
{
    CustomError::StorageFailure(String::from_str("The identifier sequence is exhausted"))
}

/// The error for a record that no table can hold.
pub fn too_large_error() -> (e: CustomError)
    ensures
        e@ == Failure::StorageFailure(record_too_large()),
{
    CustomError::StorageFailure(String::from_str("The record is too large to be stored"))
}

} // verus!
