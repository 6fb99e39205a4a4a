//! Failures that session operations report to their caller.

use vstd::prelude::*;

verus! {

/// Why a session operation could not be carried out.
#[derive(Debug, PartialEq, Eq)]
pub enum Error {
    /// The operation needs a channel or a write queue that is absent.
    Disconnected,
    /// The requested checksum algorithm is not known.
    Unsupported,
    /// A failure reported by the transport, carried unchanged.
    Transport(String),
}

/// The mathematical value of an [`Error`].
pub enum ErrorView {
    Disconnected,
    Unsupported,
    Transport(Seq<char>),
}

impl View for Error {
    type V = ErrorView;

    open spec fn view(&self) -> ErrorView {
        match self {
            Error::Disconnected => ErrorView::Disconnected,
            Error::Unsupported => ErrorView::Unsupported,
            Error::Transport(message) => ErrorView::Transport(message@),
        }
    }
}

impl Error {
    /// The error of an operation whose channel or write queue is gone.
    pub fn disconnected() -> (e: Error)
        ensures
            e == Error::Disconnected,
    {
        Error::Disconnected
    }
}

/// Why a string is not the canonical form of a session identity.
#[derive(Debug, Clone, Copy, PartialEq, Eq, Structural)]
pub enum DecodeError {
    /// The separator or a segment is missing, or the first segment is no UUID.
    Malformed,
}

} // verus!
