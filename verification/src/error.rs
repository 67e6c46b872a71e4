//! What can go wrong in a workflow operation.

use crate::backend::BackendKind;
use vstd::prelude::*;

verus! {

/// Why a workflow operation was given up, or what it returns in place of its
/// result.
///
/// That the shutdown notification found no listener is no such failure: the
/// workflow goes on, and reports it as a
/// [`SignalError`](crate::signal::SignalError).
#[derive(Debug, PartialEq, Eq)]
pub enum Error {
    /// `identifier` does not correspond to a store path.
    Resolution { identifier: String, reason: String },
    /// The store could not be listed.
    Enumeration { reason: String },
    /// `backend` rejected a batch or failed to drain.
    Backend { backend: BackendKind, reason: String },
}

/// The value of an [`Error`].
pub enum ErrorView {
    Resolution { identifier: Seq<char>, reason: Seq<char> },
    Enumeration { reason: Seq<char> },
    Backend { backend: BackendKind, reason: Seq<char> },
}

impl View for Error {
    type V = ErrorView;

    open spec fn view(&self) -> ErrorView {
        match *self {
            Error::Resolution { identifier, reason } => ErrorView::Resolution {
                identifier: identifier@,
                reason: reason@,
            },
            Error::Enumeration { reason } => ErrorView::Enumeration { reason: reason@ },
            Error::Backend { backend, reason } => ErrorView::Backend { backend, reason: reason@ },
        }
    }
}

} // verus!
