//! The recorded-content store's pure logic: classifying the result of a read,
//! mapping "not found" to a distinguished absence value.

use vstd::prelude::*;

verus! {

/// Kind of a failed file operation. `NotFound` is recoverable (it maps to an
/// absent golden record); `Failure` covers every other I/O error and is
/// fatal to the caller.
#[derive(Clone, Copy, Debug, PartialEq, Eq, Structural)]
pub enum IoError {
    NotFound,
    Failure,
}

/// The byte content recorded at a file path: present with its bytes, or
/// absent because the file does not exist.
#[derive(Debug)]
pub enum Golden {
    Present(Vec<u8>),
    Absent,
}

impl View for Golden {
    type V = Option<Seq<u8>>;

    open spec fn view(&self) -> Option<Seq<u8>> {
        match self {
            Golden::Present(bytes) => Some(bytes@),
            Golden::Absent => None,
        }
    }
}

/// Converts a `NotFound` error to `Ok(None)`.
pub fn not_found_to_none<T>(res: Result<T, IoError>) -> (r: Result<Option<T>, IoError>)
    ensures
        r == match res {
            Ok(value) => Ok::<Option<T>, IoError>(Some(value)),
            Err(IoError::NotFound) => Ok::<Option<T>, IoError>(None),
            Err(IoError::Failure) => Err::<Option<T>, IoError>(IoError::Failure),
        },
{
    match res {
        Ok(value) => Ok(Some(value)),
        Err(IoError::NotFound) => Ok(None),
        Err(IoError::Failure) => Err(IoError::Failure),
    }
}

/// Classifies the result of reading a golden file: content becomes
/// `Present`, a `NotFound` error becomes `Absent`, and any other error is
/// handed back for the caller to treat as fatal.
pub fn golden_of_read(res: Result<Vec<u8>, IoError>) -> (r: Result<Golden, IoError>)
    ensures
        match res {
            Ok(bytes) => r matches Ok(g) && g@ == Some(bytes@),
            Err(IoError::NotFound) => r matches Ok(g) && g@ is None,
            Err(IoError::Failure) => r matches Err(e) && e == IoError::Failure,
        },
{
    match not_found_to_none(res) {
        Ok(Some(bytes)) => Ok(Golden::Present(bytes)),
        Ok(None) => Ok(Golden::Absent),
        Err(e) => Err(e),
    }
}

} // verus!
