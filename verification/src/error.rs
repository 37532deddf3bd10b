//! The failures of the two collaborators of the watchlist service, and the
//! shape in which every failure reaches a client.

use vstd::prelude::*;

verus! {

/// Why a metadata lookup gave no movie.
#[derive(Clone, Copy, Debug, PartialEq, Eq, Structural)]
pub enum LookupError {
    /// The provider knows no movie under the given key.
    NotFound,
    /// The provider could not be reached.
    Unreachable,
    /// The provider answered, but not with a movie record.
    Malformed,
}

/// Why a persistence operation failed.
#[derive(Clone, Copy, Debug, PartialEq, Eq, Structural)]
pub enum StoreError {
    /// No stored movie matches the request.
    NotFound,
    /// The request collides with a stored movie.
    Conflict,
    /// The store could not be reached.
    Unavailable,
    /// Any other failure of the store.
    Unclassified,
}

/// An HTTP failure as a client sees it: a status code and a JSON body of the
/// two strings `err` (short and stable, for code) and `msg` (for people).
#[derive(Clone, Copy, Debug, PartialEq, Eq)]
pub struct ErrorResponse {
    pub status: u16,
    pub err: &'static str,
    pub msg: &'static str,
}

/// The mathematical content of an [`ErrorResponse`].
pub ghost struct ErrorResponseView {
    pub status: int,
    pub err: Seq<char>,
    pub msg: Seq<char>,
}

impl View for ErrorResponse {
    type V = ErrorResponseView;

    open spec fn view(&self) -> ErrorResponseView {
        ErrorResponseView { status: self.status as int, err: self.err@, msg: self.msg@ }
    }
}

/// What an operation answered, with a failure as its content.
pub open spec fn seen<T>(r: Result<T, ErrorResponse>) -> Result<T, ErrorResponseView> {
    match r {
        Ok(v) => Ok(v),
        Err(e) => Err(e@),
    }
}

} // verus!
