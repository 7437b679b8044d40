//! The failures a request can end in, and the HTTP reply each one gets.

use std::num::ParseIntError;
use vstd::prelude::*;

verus! {

/// `std::num::ParseIntError`, carried through as the cause of a pagination failure.
#[verifier::external_type_specification]
#[verifier::external_body]
pub struct ExParseIntError(ParseIntError);

/// A failure of the library's own logic.
#[derive(Debug)]
pub enum Error {
    /// A query parameter that should hold a number does not.
    ParseError(ParseIntError),
    /// The query names only one of `start` and `end`, or neither.
    MissingParameters,
    /// The store could not carry out the operation.
    DatabaseQueryError,
    /// No question has the identifier that was asked for.
    QuestionNotFound,
}

/// A client-supplied identifier that failed a sanity check.
#[derive(Debug, Clone, Copy)]
pub struct InvalidId;

/// Status code of a reply to a request the server refuses.
pub const FORBIDDEN: u16 = 403;

/// Status code of a reply to a request that matched no route.
pub const NOT_FOUND: u16 = 404;

/// Status code of a reply to a request whose content could not be processed.
pub const UNPROCESSABLE_ENTITY: u16 = 422;

/// Whether `m` is the text that describes `e`.
pub open spec fn is_message_of(e: Error, m: Seq<char>) -> bool {
    match e {
        Error::ParseError(cause) => exists|t: String|
            vstd::string::to_string_from_display_ensures::<ParseIntError>(&cause, t) && m
                == "Cannot parse parameter: "@ + t@,
        Error::MissingParameters => m == "Missing parameter"@,
        Error::DatabaseQueryError => m == "DatabaseQueryError, invalid data."@,
        Error::QuestionNotFound => m == "Question not found"@,
    }
}

impl Error {
    /// The text that describes this failure to a client.
    pub fn message(&self) -> (r: String)
        ensures
            is_message_of(*self, r@),
    {
        match self {
            Error::ParseError(cause) => {
                let t = cause.to_string();
                let mut m = "Cannot parse parameter: ".to_owned();
                m.append(t.as_str());
                m
            },
            Error::MissingParameters => "Missing parameter".to_owned(),
            Error::DatabaseQueryError => "DatabaseQueryError, invalid data.".to_owned(),
            Error::QuestionNotFound => "Question not found".to_owned(),
        }
    }
}

/// A request that ended without a reply of its own, as it reaches the
/// error mapper.
#[derive(Debug)]
pub enum Rejection {
    /// A failure of the library's logic.
    Custom(Error),
    /// An identifier that failed its sanity check.
    InvalidId(InvalidId),
    /// A cross-origin request that the policy forbids, with the reason.
    CorsForbidden(String),
    /// A request body that could not be decoded, with the reason.
    BodyDeserialize(String),
    /// A request that matched no route.
    Unmatched,
}

/// The status and text of the reply to a rejected request.
#[derive(Debug)]
pub struct ErrorReply {
    pub status: u16,
    pub message: String,
}

/// The status code that a rejection is answered with.
pub open spec fn status_of(r: Rejection) -> u16 {
    match r {
        Rejection::Custom(_) => UNPROCESSABLE_ENTITY,
        Rejection::CorsForbidden(_) => FORBIDDEN,
        Rejection::BodyDeserialize(_) => UNPROCESSABLE_ENTITY,
        Rejection::InvalidId(_) => NOT_FOUND,
        Rejection::Unmatched => NOT_FOUND,
    }
}

/// Whether `m` is the text of the reply to `r`.
pub open spec fn is_reply_text_of(r: Rejection, m: Seq<char>) -> bool {
    match r {
        Rejection::Custom(e) => is_message_of(e, m),
        Rejection::CorsForbidden(reason) => m == reason@,
        Rejection::BodyDeserialize(reason) => m == reason@,
        Rejection::InvalidId(_) => m == "Route not found"@,
        Rejection::Unmatched => m == "Route not found"@,
    }
}

/// Renders a rejected request as the reply the client receives: a failure
/// of the library's logic and an undecodable body are unprocessable, a
/// forbidden cross-origin request is forbidden, and anything else is an
/// unknown route.
pub fn return_error(r: Rejection) -> (reply: ErrorReply)
    ensures
        reply.status == status_of(r),
        is_reply_text_of(r, reply.message@),
{
    match r {
        Rejection::Custom(e) => ErrorReply { status: UNPROCESSABLE_ENTITY, message: e.message() },
        Rejection::CorsForbidden(reason) => ErrorReply { status: FORBIDDEN, message: reason },
        Rejection::BodyDeserialize(reason) => ErrorReply {
            status: UNPROCESSABLE_ENTITY,
            message: reason,
        },
        Rejection::InvalidId(_) => ErrorReply {
            status: NOT_FOUND,
            message: "Route not found".to_owned(),
        },
        Rejection::Unmatched => ErrorReply { status: NOT_FOUND, message: "Route not found".to_owned() },
    }
}

} // verus!
