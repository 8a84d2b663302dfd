//! Outcomes of sending an e-mail through Postmark, and how they become
//! this library's `EmailError`.

use vstd::prelude::*;

verus! {

/// Why an e-mail was not sent.
#[derive(Debug, Clone)]
pub enum EmailError {
    /// Postmark could not be reached.
    Connection(String),
    /// Postmark refused the e-mail.
    Rejected { status: u16, error_code: Option<i64>, message: Option<String> },
    /// Postmark answered 2xx but the body could not be used.
    MalformedResponse(String),
}

/// A failed Postmark query, as plain values: each variant stands for one
/// variant of `postmark::QueryError` (the client's and the decoder's errors
/// by their text).
#[derive(Debug, Clone)]
pub enum QueryFailure {
    Client(String),
    Api { status: u16, error_code: Option<i64>, message: Option<String> },
    Json(String),
    Body(String),
}

/// The `EmailError` a failed query becomes.
pub open spec fn email_error_of(failure: QueryFailure) -> EmailError {
    match failure {
        QueryFailure::Client(source) => EmailError::Connection(source),
        QueryFailure::Api { status, error_code, message } => EmailError::Rejected {
            status,
            error_code,
            message,
        },
        QueryFailure::Json(source) => EmailError::MalformedResponse(source),
        QueryFailure::Body(source) => EmailError::MalformedResponse(source),
    }
}

impl EmailError {
    /// Turns a failed query into an `EmailError`: an unreachable server is a
    /// connection error, an API error status a rejection with its code and
    /// message, and an unusable body a malformed response.
    pub fn from_query_failure(failure: QueryFailure) -> (e: EmailError)
        ensures
            e == email_error_of(failure),
    {
        match failure {
            QueryFailure::Client(source) => EmailError::Connection(source),
            QueryFailure::Api { status, error_code, message } => EmailError::Rejected {
                status,
                error_code,
                message,
            },
            QueryFailure::Json(source) => EmailError::MalformedResponse(source),
            QueryFailure::Body(source) => EmailError::MalformedResponse(source),
        }
    }
}

/// Reads a 200 reply of Postmark's send-email endpoint: an `ErrorCode` of 0
/// means the e-mail was accepted; any other code is a rejection, reported
/// with status 200 and the reply's code and message.
pub fn check_send_reply(error_code: i64, message: String) -> (r: Result<(), EmailError>)
    ensures
        error_code == 0 ==> r is Ok,
        error_code != 0 ==> r == Err::<(), EmailError>(
            (EmailError::Rejected {
                status: 200,
                error_code: Some(error_code),
                message: Some(message),
            }),
        ),
{
    if error_code == 0 {
        Ok(())
    } else {
        Err(EmailError::Rejected { status: 200, error_code: Some(error_code), message: Some(message) })
    }
}

} // verus!
