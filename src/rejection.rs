use vstd::prelude::*;

use crate::reply::{text_reply, text_view, Reply, ReplyView, Status};

verus! {

/// Why a request was not answered by its handler.
#[derive(Clone, Copy, Debug, PartialEq, Eq, Structural)]
pub enum Failure {
    /// No route matched the method and path.
    RouteNotFound,
    /// A file-system call failed after the request was accepted.
    FileError,
    /// The request body could not be decoded.
    InvalidBody,
    /// The request body is over the upload limit.
    PayloadTooLarge,
    /// Any other failure.
    Unrecognized,
}

/// The response a failure turns into: a fixed status and message, never the
/// details of what went wrong inside.
pub open spec fn rejection_view(f: Failure) -> ReplyView {
    match f {
        Failure::RouteNotFound => text_view(Status::NotFound, "Not Found"@),
        Failure::FileError => text_view(Status::InternalServerError, "File operation error"@),
        Failure::InvalidBody => text_view(Status::BadRequest, "Invalid body"@),
        Failure::PayloadTooLarge => text_view(Status::BadRequest, "Payload too large"@),
        Failure::Unrecognized => text_view(Status::InternalServerError, "Internal Server Error"@),
    }
}

pub fn handle_rejection(f: Failure) -> (r: Reply)
    ensures
        r@ == rejection_view(f),
{
    match f {
        Failure::RouteNotFound => text_reply(Status::NotFound, "Not Found".to_owned()),
        Failure::FileError => text_reply(
            Status::InternalServerError,
            "File operation error".to_owned(),
        ),
        Failure::InvalidBody => text_reply(Status::BadRequest, "Invalid body".to_owned()),
        Failure::PayloadTooLarge => text_reply(Status::BadRequest, "Payload too large".to_owned()),
        Failure::Unrecognized => text_reply(
            Status::InternalServerError,
            "Internal Server Error".to_owned(),
        ),
    }
}

/// The response a handler's result turns into.
pub open spec fn response_view(r: Result<ReplyView, Failure>) -> ReplyView {
    match r {
        Ok(v) => v,
        Err(f) => rejection_view(f),
    }
}

/// View of a handler's result.
pub open spec fn outcome_view(r: Result<Reply, Failure>) -> Result<ReplyView, Failure> {
    match r {
        Ok(v) => Ok(v@),
        Err(f) => Err(f),
    }
}

/// Answers a handler's result: its reply, or the translation of its failure.
pub fn respond(r: Result<Reply, Failure>) -> (out: Reply)
    ensures
        out@ == response_view(outcome_view(r)),
{
    match r {
        Ok(v) => v,
        Err(f) => handle_rejection(f),
    }
}

} // verus!
