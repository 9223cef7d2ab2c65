//! What can go wrong with a call.

use vstd::prelude::*;

verus! {

/// What can go wrong with a call. Only a transport failure ends the call;
/// the other kinds leave a response that lacks what could not be had.
#[derive(Debug, Clone, PartialEq, Eq)]
pub enum Error {
    /// The transport could not bring a response: no connection, no address,
    /// a broken TLS session or a deadline that ran out.
    Transport { cause: String },
    /// A body could not be read as what the response declared it to be.
    DecodeDegraded,
    /// A file that the request names could not be read.
    ResourceUnavailable { path: String },
    /// A header has a name or a value that the transport cannot send.
    InvalidHeaderValue { name: String },
}

/// The model of an [`Error`].
pub enum ErrorView {
    Transport { cause: Seq<char> },
    DecodeDegraded,
    ResourceUnavailable { path: Seq<char> },
    InvalidHeaderValue { name: Seq<char> },
}

impl View for Error {
    type V = ErrorView;

    open spec fn view(&self) -> ErrorView {
        match self {
            Error::Transport { cause } => ErrorView::Transport { cause: cause@ },
            Error::DecodeDegraded => ErrorView::DecodeDegraded,
            Error::ResourceUnavailable { path } => ErrorView::ResourceUnavailable { path: path@ },
            Error::InvalidHeaderValue { name } => ErrorView::InvalidHeaderValue { name: name@ },
        }
    }
}

impl DeepView for Error {
    type V = ErrorView;

    open spec fn deep_view(&self) -> ErrorView {
        self@
    }
}

impl Error {
    /// Tells whether the error ends the call. Only a transport failure does.
    pub fn is_fatal(&self) -> (fatal: bool)
        ensures
            fatal == (self@ is Transport),
    {
        match self {
            Error::Transport { .. } => true,
            _ => false,
        }
    }
}

} // verus!
