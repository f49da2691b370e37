//! The one kind of failure a request can end in.

use vstd::prelude::*;

verus! {

/// A request that failed: the HTTP status that came with the failure and a
/// description of it.
#[derive(Debug, PartialEq, Eq)]
pub struct Error {
    pub status: u16,
    pub message: String,
}

/// An `Error` as plain values.
pub struct ErrorView {
    pub status: u16,
    pub message: Seq<char>,
}

impl View for Error {
    type V = ErrorView;

    open spec fn view(&self) -> ErrorView {
        ErrorView { status: self.status, message: self.message@ }
    }
}

/// What a request ends in: the JSON value of the reply, or the failure.
pub type RestResult = Result<serde_json::Value, Error>;

} // verus!
