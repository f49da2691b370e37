//! A request as the client plans it, before anything is sent.

use vstd::prelude::*;
use vstd::string::StringExecFns;
use crate::json::{pretty_json, pretty_print};
use crate::method::Method;

verus! {

/// One request, ready to be sent: where it goes, what it carries, and the
/// diagnostic text to write before it leaves.
pub struct Request {
    /// The verb to send.
    pub method: Method,
    /// The address to send to.
    pub url: String,
    /// The value of the `Authorization` header, if the request carries one.
    pub authorization: Option<String>,
    /// The JSON payload, if the request carries one.
    pub body: Option<serde_json::Value>,
    /// The text to write to standard output before sending; empty when the
    /// client is quiet.
    pub log: String,
}

/// A `Request` as plain values.
pub struct RequestView {
    pub method: Method,
    pub url: Seq<char>,
    pub authorization: Option<Seq<char>>,
    pub body: Option<serde_json::Value>,
    pub log: Seq<char>,
}

impl View for Request {
    type V = RequestView;

    open spec fn view(&self) -> RequestView {
        RequestView {
            method: self.method,
            url: self.url@,
            authorization: match self.authorization {
                Some(value) => Some(value@),
                None => None,
            },
            body: self.body,
            log: self.log@,
        }
    }
}

/// The diagnostic text of a request: nothing for a quiet client; for a verbose
/// one the verb, a space and the address on one line, then the payload, if
/// there is one, as indented JSON followed by a line break.
pub open spec fn request_log(
    verbose: bool,
    method: Method,
    url: Seq<char>,
    body: Option<serde_json::Value>,
) -> Seq<char> {
    if !verbose {
        Seq::empty()
    } else {
        let head = method.label() + " "@ + url + "\n"@;
        match body {
            Some(json) => head + pretty_json(json) + "\n"@,
            None => head,
        }
    }
}

/// Writes the diagnostic text of a request.
pub fn write_request_log(
    verbose: bool,
    method: Method,
    url: &str,
    body: &Option<serde_json::Value>,
) -> (log: String)
    ensures
        log@ == request_log(verbose, method, url@, *body),
{
    let mut log = String::new();
    if verbose {
        log.append(method.name());
        log.append(" ");
        log.append(url);
        log.append("\n");
        match body {
            Some(json) => {
                let text = pretty_print(json);
                log.append(text.as_str());
                log.append("\n");
            },
            None => {},
        }
    }
    log
}

} // verus!
