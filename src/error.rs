use vstd::prelude::*;

verus! {

/// Conditions of the data layer that are not failures of the store itself.
#[derive(PartialEq, Eq, Structural)]
pub enum DexieError {
    ParseError,
    NoContent,
}

/// The body of every error response: it carries no detail of the cause.
#[derive(PartialEq, Eq, Structural)]
pub struct Error {}

impl Error {
    pub fn custom() -> (r: Error)
        ensures
            r == (Error {}),
    {
        Error {}
    }
}

/// Why a store operation gave no record.
pub enum StoreError<E> {
    /// No document matched the filter.
    NotFound,
    /// The write succeeded but named no record that could be read back.
    NoContent,
    /// The store client reported a failure.
    Upstream(E),
}

impl<E> StoreError<E> {
    /// The HTTP status that reports this failure.
    pub fn status(&self) -> (r: u16)
        ensures
            self is NotFound ==> r == 404,
            self is NoContent ==> r == 304,
            self is Upstream ==> r == 500,
    {
        match self {
            StoreError::NotFound => 404,
            StoreError::NoContent => 304,
            StoreError::Upstream(_) => 500,
        }
    }
}

} // verus!
