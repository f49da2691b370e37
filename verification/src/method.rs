//! The HTTP verbs a request can be issued with.

use vstd::prelude::*;

verus! {

/// The verb of a request.
#[derive(Clone, Copy, Debug, PartialEq, Eq, Structural)]
pub enum Method {
    GET,
    POST,
    PATCH,
    DELETE,
    PUT,
}

impl Method {
    /// The upper-case name of the verb, as it is written in diagnostics.
    pub open spec fn label(self) -> Seq<char> {
        match self {
            Method::GET => "GET"@,
            Method::POST => "POST"@,
            Method::PATCH => "PATCH"@,
            Method::DELETE => "DELETE"@,
            Method::PUT => "PUT"@,
        }
    }

    /// Returns the upper-case name of the verb.
    pub fn name(&self) -> (text: &'static str)
        ensures
            text@ == self.label(),
    {
        match self {
            Method::GET => "GET",
            Method::POST => "POST",
            Method::PATCH => "PATCH",
            Method::DELETE => "DELETE",
            Method::PUT => "PUT",
        }
    }
}

} // verus!
