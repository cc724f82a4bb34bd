//! The library's error: a message, with the chain of what caused it.

use vstd::prelude::*;

use crate::aca::client::{AcaApiError, ApiErrorView};
use crate::exec::{exit_code_text, ExecResult, ExecView};

verus! {

/// An error of this library.
#[derive(Debug)]
pub enum Error {
    /// A message of the library's own.
    Message(String),
    /// A message about what was being done, and the error that stopped it.
    Context { message: String, source: Box<Error> },
    /// An error answer of the data plane.
    Api(AcaApiError),
    /// A failure reported by something outside of the library, by its text.
    Outside(String),
    /// A command that ran and failed.
    Exec { label: String, result: ExecResult },
}

/// The model of an [`Error`].
#[verifier::ext_equal]
pub ghost enum ErrorView {
    Message(Seq<char>),
    Context { message: Seq<char>, source: Box<ErrorView> },
    Api(ApiErrorView),
    Outside(Seq<char>),
    Exec { label: Seq<char>, result: ExecView },
}

/// The model of an error, its causes included.
pub open spec fn error_view(e: Error) -> ErrorView
    decreases e,
{
    match e {
        Error::Message(message) => ErrorView::Message(message@),
        Error::Context { message, source } => ErrorView::Context {
            message: message@,
            source: Box::new(error_view(*source)),
        },
        Error::Api(e) => ErrorView::Api(e@),
        Error::Outside(text) => ErrorView::Outside(text@),
        Error::Exec { label, result } => ErrorView::Exec { label: label@, result: result@ },
    }
}

impl View for Error {
    type V = ErrorView;

    open spec fn view(&self) -> ErrorView {
        error_view(*self)
    }
}

/// `cause`, with a message about what it stopped.
pub open spec fn in_context(message: Seq<char>, cause: ErrorView) -> ErrorView {
    ErrorView::Context { message, source: Box::new(cause) }
}

/// What an error says of itself; its causes speak for themselves.
pub open spec fn error_text(e: ErrorView) -> Seq<char> {
    match e {
        ErrorView::Message(message) => message,
        ErrorView::Context { message, .. } => message,
        ErrorView::Api(e) => e.text(),
        ErrorView::Outside(text) => text,
        ErrorView::Exec { label, result } => label + " failed (exit "@ + exit_code_text(
            result.exit_code,
        ) + "): "@ + result.stderr,
    }
}

/// Whether the data plane's "not running" answer is the error or one of its causes.
pub open spec fn caused_by_not_running(e: ErrorView) -> bool
    decreases e,
{
    match e {
        ErrorView::Api(ApiErrorView::NotRunning) => true,
        ErrorView::Context { source, .. } => caused_by_not_running(*source),
        _ => false,
    }
}

impl Error {
    /// An error with a message and no cause.
    pub fn message(message: &str) -> (r: Error)
        ensures
            r@ == ErrorView::Message(message@),
    {
        Error::Message(message.to_owned())
    }

    /// An error with a message and a cause.
    pub fn context(message: &str, cause: Error) -> (r: Error)
        ensures
            r@ == in_context(message@, cause@),
    {
        Error::Context { message: message.to_owned(), source: Box::new(cause) }
    }

    /// An error with a message, caused by a failure outside of the library.
    pub fn outside(message: &str, cause: String) -> (r: Error)
        ensures
            r@ == in_context(message@, ErrorView::Outside(cause@)),
    {
        Error::context(message, Error::Outside(cause))
    }

    /// The error's own text.
    pub fn text(&self) -> (r: String)
        ensures
            r@ == error_text(self@),
    {
        match self {
            Error::Message(message) => message.clone(),
            Error::Context { message, .. } => message.clone(),
            Error::Api(e) => e.message(),
            Error::Outside(text) => text.clone(),
            Error::Exec { label, result } => {
                let mut out = label.clone();
                out.append(" failed (exit ");
                out.append(result.display_exit_code().as_str());
                out.append("): ");
                out.append(result.stderr.as_str());
                out
            },
        }
    }

    /// The error that caused this one, where there is one.
    pub fn source(&self) -> (r: Option<&Error>)
        ensures
            match r {
                Some(cause) => self@ matches ErrorView::Context { source, .. } && *source == cause@,
                None => !(self is Context),
            },
    {
        match self {
            Error::Context { source, .. } => Some(&**source),
            _ => None,
        }
    }
}

} // verus!
