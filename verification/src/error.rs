//! The two error classes every operation collapses to at the HTTP
//! boundary: an object-store fault carrying a human-readable description,
//! and a bare not-found.

use vstd::prelude::*;

verus! {

/// Errors surfaced by repository operations.
///
/// `Store` covers any failure opening, reading or dereferencing Git
/// structures and keeps a description of the underlying cause; `NotFound`
/// covers a missing branch, a missing path, or a path that does not name
/// a blob, with the originating cause deliberately discarded.
#[derive(Debug)]
pub enum ApiError {
    Store { detail: String },
    NotFound,
}

/// The HTTP status for a `Store` fault.
pub open spec fn spec_store_status() -> int {
    500
}

/// The HTTP status for `NotFound`.
pub open spec fn spec_not_found_status() -> int {
    404
}

/// The response body for an error: the described cause for a store
/// fault, nothing for a not-found.
pub open spec fn spec_error_body(e: ApiError) -> Seq<char> {
    match e {
        ApiError::Store { detail } => ("Something went wrong when: ")@ + detail@,
        ApiError::NotFound => Seq::empty(),
    }
}

impl ApiError {
    /// The HTTP status code this error is reported with: 500 for a store
    /// fault, 404 for a not-found.
    pub fn status_code(&self) -> (c: u16)
        ensures
            *self is Store ==> c == spec_store_status(),
            *self is NotFound ==> c == spec_not_found_status(),
    {
        match self {
            ApiError::Store { .. } => 500,
            ApiError::NotFound => 404,
        }
    }

    /// The response body this error is reported with.
    pub fn body(&self) -> (s: String)
        ensures
            s@ == spec_error_body(*self),
    {
        match self {
            ApiError::Store { detail } => {
                proof {
                    reveal_strlit("Something went wrong when: ");
                }
                let mut out = String::new();
                out.append("Something went wrong when: ");
                out.append(detail.as_str());
                out
            },
            ApiError::NotFound => String::new(),
        }
    }

    /// True exactly when this is the not-found class.
    pub fn is_not_found(&self) -> (b: bool)
        ensures
            b == (*self is NotFound),
    {
        match self {
            ApiError::NotFound => true,
            ApiError::Store { .. } => false,
        }
    }
}

/// Replaces any error by the bare not-found class, leaving a success
/// untouched: the deliberate collapse applied at the blob-retrieval
/// boundary, where a missing branch, a missing path and a non-blob entry
/// must all become the same outcome.
pub fn collapse_to_not_found<T>(r: Result<T, ApiError>) -> (out: Result<T, ApiError>)
    ensures
        r is Ok ==> out == r,
        r is Err ==> out == Result::<T, ApiError>::Err(ApiError::NotFound),
{
    match r {
        Ok(v) => Ok(v),
        Err(_) => Err(ApiError::NotFound),
    }
}

/// Two failures, whatever their causes, are indistinguishable after the
/// not-found collapse: requesting a path that is absent and requesting a
/// path that names a non-blob yield the same outcome class.
pub proof fn lemma_collapse_erases_cause(e1: ApiError, e2: ApiError)
    ensures
        spec_collapse::<()>(Err(e1)) == spec_collapse::<()>(Err(e2)),
{
}

/// The collapse as a specification-level function.
pub open spec fn spec_collapse<T>(r: Result<T, ApiError>) -> Result<T, ApiError> {
    match r {
        Ok(v) => Ok(v),
        Err(_) => Err(ApiError::NotFound),
    }
}

} // verus!
