//! The bodies of the fallback handlers: what a client receives when a request
//! fails before or outside the watchlist operations.

use crate::error::{ErrorResponse, ErrorResponseView};
use vstd::prelude::*;

verus! {

/// Status 400 with the body of a request whose JSON could not be parsed.
pub open spec fn bad_request_view() -> ErrorResponseView {
    ErrorResponseView { status: 400, err: "bad request"@, msg: "Error parsing JSON body"@ }
}

/// Status 404 with the body of a request to a route that does not exist.
pub open spec fn not_found_view() -> ErrorResponseView {
    ErrorResponseView {
        status: 404,
        err: "route not found"@,
        msg: "The given route does not exist"@,
    }
}

/// Status 422 with the body of a request whose JSON does not have the
/// expected structure.
pub open spec fn unprocessable_entity_view() -> ErrorResponseView {
    ErrorResponseView {
        status: 422,
        err: "failed to process entity"@,
        msg: "The given object could not be processed. This could be due to sending malformed or incomplete JSON objects in the request body."@,
    }
}

/// Status 500 with the body of a failure that has no class of its own.
pub open spec fn internal_server_error_view() -> ErrorResponseView {
    ErrorResponseView {
        status: 500,
        err: "internal server error"@,
        msg: "Something went wrong, try again"@,
    }
}

/// The response to a request whose JSON body could not be parsed.
pub fn bad_request() -> (r: ErrorResponse)
    ensures
        r@ == bad_request_view(),
{
    ErrorResponse { status: 400, err: "bad request", msg: "Error parsing JSON body" }
}

/// The response to a request to a route that does not exist.
pub fn not_found() -> (r: ErrorResponse)
    ensures
        r@ == not_found_view(),
{
    ErrorResponse {
        status: 404,
        err: "route not found",
        msg: "The given route does not exist",
    }
}

/// The response to a request whose body is valid JSON of the wrong structure.
pub fn unprocessable_entity() -> (r: ErrorResponse)
    ensures
        r@ == unprocessable_entity_view(),
{
    ErrorResponse {
        status: 422,
        err: "failed to process entity",
        msg: "The given object could not be processed. This could be due to sending malformed or incomplete JSON objects in the request body.",
    }
}

/// The response to a failure inside the service that has no class of its own.
pub fn internal_server_error() -> (r: ErrorResponse)
    ensures
        r@ == internal_server_error_view(),
{
    ErrorResponse {
        status: 500,
        err: "internal server error",
        msg: "Something went wrong, try again",
    }
}

} // verus!
