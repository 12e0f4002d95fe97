//! The error type shared by every part of the tunnel.

use vstd::prelude::*;
use vstd::string::StringExecFns;

verus! {

/// What went wrong inside the transport, as far as the tunnel cares.
#[derive(Debug, Clone, Copy, PartialEq, Eq, Structural)]
pub enum IoKind {
    /// The stream ended before the expected bytes arrived.
    UnexpectedEof,
    /// The peer is gone and the stream cannot be written any more.
    BrokenPipe,
    /// The peer reset the connection.
    ConnectionReset,
    /// Any other transport failure.
    Other,
}

/// Every failure the tunnel reports.
#[derive(Debug, Clone, PartialEq, Eq)]
pub enum Error {
    /// The underlying transport failed.
    Io(IoKind, String),
    /// A packet was malformed or the stream was truncated.
    Decode,
    /// A well-formed message arrived in a state that does not allow it.
    Unexpected(String),
    /// A visitor waited longer than the configured time for its mapper.
    Timeout,
    /// A wait slot was closed, or the session is stopping.
    Channel,
    /// The public port could not be opened.
    BindFailed(String),
    /// Every correlation id is in use.
    ResourceExhausted,
}

/// The mathematical value of an [`Error`].
pub enum ErrorView {
    Io(IoKind, Seq<char>),
    Decode,
    Unexpected(Seq<char>),
    Timeout,
    Channel,
    BindFailed(Seq<char>),
    ResourceExhausted,
}

impl View for Error {
    type V = ErrorView;

    open spec fn view(&self) -> ErrorView {
        match *self {
            Error::Io(kind, text) => ErrorView::Io(kind, text@),
            Error::Decode => ErrorView::Decode,
            Error::Unexpected(text) => ErrorView::Unexpected(text@),
            Error::Timeout => ErrorView::Timeout,
            Error::Channel => ErrorView::Channel,
            Error::BindFailed(text) => ErrorView::BindFailed(text@),
            Error::ResourceExhausted => ErrorView::ResourceExhausted,
        }
    }
}

impl ErrorView {
    /// The text a reader is shown for this error.
    pub open spec fn text(self) -> Seq<char> {
        match self {
            ErrorView::Io(_, text) => text,
            ErrorView::Decode => "malformed packet"@,
            ErrorView::Unexpected(text) => text,
            ErrorView::Timeout => "timed out"@,
            ErrorView::Channel => "channel closed"@,
            ErrorView::BindFailed(text) => text,
            ErrorView::ResourceExhausted => "no free id"@,
        }
    }
}

impl Error {
    /// The text a reader is shown for this error: the carried text where the
    /// error carries one, a fixed phrase otherwise.
    pub fn describe(&self) -> (text: String)
        ensures
            text@ == self@.text(),
    {
        match self {
            Error::Io(_, text) => text.clone(),
            Error::Decode => String::from_str("malformed packet"),
            Error::Unexpected(text) => text.clone(),
            Error::Timeout => String::from_str("timed out"),
            Error::Channel => String::from_str("channel closed"),
            Error::BindFailed(text) => text.clone(),
            Error::ResourceExhausted => String::from_str("no free id"),
        }
    }
}

/// The error of a read that met the end of the stream too early.
pub fn eof() -> (e: Error)
    ensures
        e@ == ErrorView::Io(IoKind::UnexpectedEof, "early eof"@),
{
    Error::Io(IoKind::UnexpectedEof, String::from_str("early eof"))
}

} // verus!
