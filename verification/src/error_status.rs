//! From a collaborator's failure to the response that a client receives.
//! Nothing else in the crate gives a failure its outward shape.

use crate::catchers::{internal_server_error, internal_server_error_view};
use crate::error::{ErrorResponse, ErrorResponseView, LookupError, StoreError};
use vstd::prelude::*;

verus! {

/// The response that stands for a failure of the store.
///
/// A missing movie is the client's matter (404) and a collision is a conflict
/// (409). An unreachable store and every failure without a class are the
/// server's own (500), with the body of the internal-error fallback.
pub open spec fn db_view(e: StoreError) -> ErrorResponseView {
    match e {
        StoreError::NotFound => ErrorResponseView {
            status: 404,
            err: "not found"@,
            msg: "No movie on the watchlist matches the request"@,
        },
        StoreError::Conflict => ErrorResponseView {
            status: 409,
            err: "conflict"@,
            msg: "The movie is already on the watchlist"@,
        },
        StoreError::Unavailable | StoreError::Unclassified => internal_server_error_view(),
    }
}

/// The response that stands for a failure of the metadata provider.
///
/// A movie that the provider does not know is the client's matter (404).
/// A provider that cannot be reached, or whose answer cannot be read, is a
/// failure upstream of this server: both are reported as 502.
pub open spec fn omdb_view(e: LookupError) -> ErrorResponseView {
    match e {
        LookupError::NotFound => ErrorResponseView {
            status: 404,
            err: "movie not found"@,
            msg: "The metadata provider knows no such movie"@,
        },
        LookupError::Unreachable => ErrorResponseView {
            status: 502,
            err: "provider unreachable"@,
            msg: "The metadata provider could not be reached"@,
        },
        LookupError::Malformed => ErrorResponseView {
            status: 502,
            err: "malformed provider response"@,
            msg: "The metadata provider gave an answer that could not be read"@,
        },
    }
}

/// Maps a failure of the store to its response.
pub fn db(e: StoreError) -> (r: ErrorResponse)
    ensures
        r@ == db_view(e),
{
    match e {
        StoreError::NotFound => ErrorResponse {
            status: 404,
            err: "not found",
            msg: "No movie on the watchlist matches the request",
        },
        StoreError::Conflict => ErrorResponse {
            status: 409,
            err: "conflict",
            msg: "The movie is already on the watchlist",
        },
        StoreError::Unavailable | StoreError::Unclassified => internal_server_error(),
    }
}

/// Maps a failure of the metadata provider to its response.
pub fn omdb(e: LookupError) -> (r: ErrorResponse)
    ensures
        r@ == omdb_view(e),
{
    match e {
        LookupError::NotFound => ErrorResponse {
            status: 404,
            err: "movie not found",
            msg: "The metadata provider knows no such movie",
        },
        LookupError::Unreachable => ErrorResponse {
            status: 502,
            err: "provider unreachable",
            msg: "The metadata provider could not be reached",
        },
        LookupError::Malformed => ErrorResponse {
            status: 502,
            err: "malformed provider response",
            msg: "The metadata provider gave an answer that could not be read",
        },
    }
}

} // verus!
