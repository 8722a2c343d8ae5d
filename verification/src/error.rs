//! Crate-wide error type.
//!
//! Errors originate at the two boundaries the helper validates (the WS envelope
//! from the browser and the arduino-cli daemon's responses) and travel back to
//! the editor as the terminal `error {code, message}` message.

use vstd::prelude::*;
use crate::text::owned;

verus! {

#[derive(Debug, Clone)]
pub enum Error {
    /// A malformed or unexpected WS envelope arrived from the browser.
    InvalidRequest(String),
    /// The arduino-cli daemon failed to start, or its gRPC channel dropped.
    Daemon(String),
    /// A gRPC call to the daemon returned an error status; holds the status text.
    Grpc(String),
    /// A request was cancelled via `cancel{id}`.
    Cancelled,
    /// A resource-root or pack/lib reference problem, with an actionable message.
    /// On the wire it is an `invalidRequest`: the request named a library the
    /// root does not provide.
    Resource(String),
    /// An I/O failure; holds the I/O error's text, which is the whole message.
    Io(String),
}

/// An error over mathematical strings.
pub enum ErrorView {
    InvalidRequest(Seq<char>),
    Daemon(Seq<char>),
    Grpc(Seq<char>),
    Cancelled,
    Resource(Seq<char>),
    Io(Seq<char>),
}

impl View for Error {
    type V = ErrorView;

    open spec fn view(&self) -> ErrorView {
        match self {
            Error::InvalidRequest(m) => ErrorView::InvalidRequest(m@),
            Error::Daemon(m) => ErrorView::Daemon(m@),
            Error::Grpc(m) => ErrorView::Grpc(m@),
            Error::Cancelled => ErrorView::Cancelled,
            Error::Resource(m) => ErrorView::Resource(m@),
            Error::Io(m) => ErrorView::Io(m@),
        }
    }
}

/// The stable wire code of an error: one of `invalidRequest`, `daemon`, `grpc`,
/// `cancelled` and `io`.
pub open spec fn spec_code(e: ErrorView) -> Seq<char> {
    match e {
        ErrorView::InvalidRequest(_) => "invalidRequest"@,
        ErrorView::Daemon(_) => "daemon"@,
        ErrorView::Grpc(_) => "grpc"@,
        ErrorView::Cancelled => "cancelled"@,
        ErrorView::Resource(_) => "invalidRequest"@,
        ErrorView::Io(_) => "io"@,
    }
}

/// The human-readable text of an error: a kind prefix and the detail.
pub open spec fn spec_message(e: ErrorView) -> Seq<char> {
    match e {
        ErrorView::InvalidRequest(m) => "invalid request: "@ + m,
        ErrorView::Daemon(m) => "daemon: "@ + m,
        ErrorView::Grpc(m) => "grpc: "@ + m,
        ErrorView::Cancelled => "cancelled"@,
        ErrorView::Resource(m) => "resource: "@ + m,
        ErrorView::Io(m) => m,
    }
}

impl Error {
    /// Stable wire code for the WS `error {code, message}` terminal message.
    pub fn code(&self) -> (r: &'static str)
        ensures
            r@ == spec_code(self@),
    {
        match self {
            Error::InvalidRequest(_) => "invalidRequest",
            Error::Daemon(_) => "daemon",
            Error::Grpc(_) => "grpc",
            Error::Cancelled => "cancelled",
            Error::Resource(_) => "invalidRequest",
            Error::Io(_) => "io",
        }
    }

    /// The error's display text, carried as the `message` of the WS reply.
    pub fn message(&self) -> (r: String)
        ensures
            r@ == spec_message(self@),
    {
        match self {
            Error::InvalidRequest(m) => prefixed("invalid request: ", m),
            Error::Daemon(m) => prefixed("daemon: ", m),
            Error::Grpc(m) => prefixed("grpc: ", m),
            Error::Cancelled => owned("cancelled"),
            Error::Resource(m) => prefixed("resource: ", m),
            Error::Io(m) => m.clone(),
        }
    }
}

fn prefixed(prefix: &str, detail: &String) -> (r: String)
    ensures
        r@ == prefix@ + detail@,
{
    let mut s = owned(prefix);
    s.append(detail.as_str());
    s
}

} // verus!
