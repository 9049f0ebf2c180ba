//! The errors of the service and what a client is told of them.

use crate::text::owned;
use vstd::prelude::*;
use vstd::string::*;

verus! {

/// What went wrong, with a message for the client.
#[derive(Debug)]
pub enum AppError {
    BadRequest(String),
    NotFound(String),
    Internal(String),
}

/// An error with its message as text.
pub enum AppErrorView {
    BadRequest(Seq<char>),
    NotFound(Seq<char>),
    Internal(Seq<char>),
}

impl View for AppError {
    type V = AppErrorView;

    open spec fn view(&self) -> AppErrorView {
        match self {
            AppError::BadRequest(m) => AppErrorView::BadRequest(m@),
            AppError::NotFound(m) => AppErrorView::NotFound(m@),
            AppError::Internal(m) => AppErrorView::Internal(m@),
        }
    }
}

/// The outcome of a call that gives a text, as text.
pub open spec fn text_outcome(r: Result<String, AppError>) -> Result<Seq<char>, AppErrorView> {
    match r {
        Ok(s) => Ok(s@),
        Err(e) => Err(e@),
    }
}

/// The outcome of a call that gives nothing but may fail.
pub open spec fn unit_outcome(r: Result<(), AppError>) -> Result<(), AppErrorView> {
    match r {
        Ok(_) => Ok(()),
        Err(e) => Err(e@),
    }
}

/// The HTTP reply to an error: status, machine-readable code and message.
#[derive(Debug)]
pub struct ErrorReply {
    pub status: u16,
    pub code: String,
    pub message: String,
}

impl AppErrorView {
    pub open spec fn status(self) -> u16 {
        match self {
            AppErrorView::BadRequest(_) => 400,
            AppErrorView::NotFound(_) => 404,
            AppErrorView::Internal(_) => 500,
        }
    }

    pub open spec fn code(self) -> Seq<char> {
        match self {
            AppErrorView::BadRequest(_) => "BAD_REQUEST"@,
            AppErrorView::NotFound(_) => "NOT_FOUND"@,
            AppErrorView::Internal(_) => "INTERNAL_ERROR"@,
        }
    }

    pub open spec fn message(self) -> Seq<char> {
        match self {
            AppErrorView::BadRequest(m) => m,
            AppErrorView::NotFound(m) => m,
            AppErrorView::Internal(m) => m,
        }
    }

    /// The line that a log shows for the error.
    pub open spec fn line(self) -> Seq<char> {
        match self {
            AppErrorView::BadRequest(m) => "Bad request: "@ + m,
            AppErrorView::NotFound(m) => "Resource not found: "@ + m,
            AppErrorView::Internal(m) => "Internal error: "@ + m,
        }
    }
}

impl AppError {
    /// The reply that a client gets: the error's status and code, and its
    /// message unchanged.
    pub fn into_response(self) -> (r: ErrorReply)
        ensures
            r.status == self@.status(),
            r.code@ == self@.code(),
            r.message@ == self@.message(),
    {
        match self {
            AppError::BadRequest(message) => ErrorReply {
                status: 400,
                code: owned("BAD_REQUEST"),
                message,
            },
            AppError::NotFound(message) => ErrorReply {
                status: 404,
                code: owned("NOT_FOUND"),
                message,
            },
            AppError::Internal(message) => ErrorReply {
                status: 500,
                code: owned("INTERNAL_ERROR"),
                message,
            },
        }
    }

    /// The error as one line of text.
    pub fn to_line(&self) -> (r: String)
        ensures
            r@ == self@.line(),
    {
        let (prefix, message): (&str, &String) = match self {
            AppError::BadRequest(message) => ("Bad request: ", message),
            AppError::NotFound(message) => ("Resource not found: ", message),
            AppError::Internal(message) => ("Internal error: ", message),
        };
        owned(prefix).concat(message.as_str())
    }
}

/// The message of an error, whatever its kind.
pub fn app_error_message(error: &AppError) -> (r: String)
    ensures
        r@ == error@.message(),
{
    match error {
        AppError::BadRequest(message) => message.clone(),
        AppError::NotFound(message) => message.clone(),
        AppError::Internal(message) => message.clone(),
    }
}

pub fn bad_request(message: &str) -> (r: AppError)
    ensures
        r@ == AppErrorView::BadRequest(message@),
{
    AppError::BadRequest(owned(message))
}

pub fn internal(message: &str) -> (r: AppError)
    ensures
        r@ == AppErrorView::Internal(message@),
{
    AppError::Internal(owned(message))
}

/// A client is told the error's own message, with the status and the code of its
/// kind, and a log line ends with that message.
pub proof fn law_reply_tells_the_error(message: Seq<char>)
    ensures
        ({
            let bad = AppErrorView::BadRequest(message);
            let missing = AppErrorView::NotFound(message);
            let broken = AppErrorView::Internal(message);
            &&& bad.message() == message && missing.message() == message && broken.message()
                == message
            &&& bad.status() == 400 && missing.status() == 404 && broken.status() == 500
            &&& bad.code() == "BAD_REQUEST"@ && missing.code() == "NOT_FOUND"@ && broken.code()
                == "INTERNAL_ERROR"@
            &&& bad.line() == "Bad request: "@ + message
            &&& missing.line() == "Resource not found: "@ + message
            &&& broken.line() == "Internal error: "@ + message
        }),
{
}

/// An error keeps its kind and its message in every outcome that it stands in.
pub proof fn law_outcomes_show_what_they_hold(s: String, e: AppError)
    ensures
        text_outcome(Ok(s)) == Ok::<Seq<char>, AppErrorView>(s@),
        text_outcome(Err(e)) == Err::<Seq<char>, AppErrorView>(e@),
        unit_outcome(Ok(())) is Ok,
        unit_outcome(Err(e)) == Err::<(), AppErrorView>(e@),
        AppError::BadRequest(s)@ == AppErrorView::BadRequest(s@),
        AppError::NotFound(s)@ == AppErrorView::NotFound(s@),
        AppError::Internal(s)@ == AppErrorView::Internal(s@),
{
}

} // verus!
