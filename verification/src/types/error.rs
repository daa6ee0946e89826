//! Errors of calls to the REST API.
use vstd::prelude::*;

verus! {

/// What went wrong in a call to the REST API.
#[derive(Clone, Copy, Debug, PartialEq, Eq, Structural)]
pub enum DerustError {
    UnknownError,
    HttpError,
    NoPermissions,
    InvalidToken,
}

} // verus!
