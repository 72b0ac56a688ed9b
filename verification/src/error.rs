//! The errors that a search for the driver or an installation can end in.
use vstd::prelude::*;

verus! {

/// Why a driver could not be located or an installation did not succeed.
#[derive(Debug)]
pub enum Error {
    /// No source of the driver offers a `cli.js` that exists.
    ServerNotFound,
    /// Deno is missing, or the installer could not be started or failed.
    LaunchFailed(String),
}

/// The mathematical counterpart of [`Error`].
pub enum ErrorView {
    ServerNotFound,
    LaunchFailed(Seq<char>),
}

impl View for Error {
    type V = ErrorView;

    open spec fn view(&self) -> ErrorView {
        match self {
            Error::ServerNotFound => ErrorView::ServerNotFound,
            Error::LaunchFailed(message) => ErrorView::LaunchFailed(message@),
        }
    }
}

} // verus!
