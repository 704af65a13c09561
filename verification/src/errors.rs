//! Failure categories for interacting with the external transport.

use vstd::prelude::*;

verus! {

/// The coarse category of an underlying OS-level or transport-level failure,
/// mirroring the handful of I/O error kinds the classifier distinguishes.
#[derive(Clone, Copy, Debug, PartialEq, Eq, Structural)]
pub enum ErrorKind {
    /// A failure with no more specific category (name resolution,
    /// unreachable network, and everything unclassified).
    Other,
    /// The connection was aborted.
    ConnectionAborted,
    /// The remote host refused the connection.
    ConnectionRefused,
    /// Authentication or authorization was denied.
    PermissionDenied,
}

/// An OS-level failure: a coarse category plus the verbatim diagnostic text
/// that accompanied it.
#[derive(Debug)]
pub struct OsError {
    /// The coarse category.
    pub kind: ErrorKind,
    /// The diagnostic text, kept verbatim.
    pub message: String,
}

/// Mathematical model of an [`OsError`].
pub struct OsErrorView {
    /// The coarse category.
    pub kind: ErrorKind,
    /// The diagnostic text as a sequence of characters.
    pub message: Seq<char>,
}

impl View for OsError {
    type V = OsErrorView;

    open spec fn view(&self) -> OsErrorView {
        OsErrorView { kind: self.kind, message: self.message@ }
    }
}

impl OsError {
    /// Pack a category and a diagnostic into an [`OsError`].
    pub fn new(kind: ErrorKind, message: String) -> (r: OsError)
        ensures
            r@ == (OsErrorView { kind, message: message@ }),
    {
        OsError { kind, message }
    }
}

/// Errors that occur when interacting with a remote process, by the stage of
/// the pipeline in which the failure occurred.
#[derive(Debug)]
pub enum Error {
    /// The background control-master process failed.
    Master(OsError),
    /// The initial connection to the remote host could not be established.
    Connect(OsError),
    /// The local transport client could not be run at all.
    Ssh(OsError),
    /// The remote process failed.
    Remote(OsError),
    /// The connection to the remote host is presumed severed.
    ///
    /// This is a best-effort fallback used when no more specific diagnosis
    /// is available.
    Disconnected,
}

/// Mathematical model of an [`Error`].
pub enum ErrorView {
    /// The background control-master process failed.
    Master(OsErrorView),
    /// The initial connection could not be established.
    Connect(OsErrorView),
    /// The local transport client could not be run.
    Ssh(OsErrorView),
    /// The remote process failed.
    Remote(OsErrorView),
    /// The connection is presumed severed.
    Disconnected,
}

impl View for Error {
    type V = ErrorView;

    open spec fn view(&self) -> ErrorView {
        match self {
            Error::Master(e) => ErrorView::Master(e@),
            Error::Connect(e) => ErrorView::Connect(e@),
            Error::Ssh(e) => ErrorView::Ssh(e@),
            Error::Remote(e) => ErrorView::Remote(e@),
            Error::Disconnected => ErrorView::Disconnected,
        }
    }
}

} // verus!
