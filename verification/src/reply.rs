//! What comes back for a request, and what the client makes of it.

use vstd::prelude::*;
use vstd::string::StringExecFns;
use crate::error::{Error, ErrorView, RestResult};
use crate::json::{json_is_null, json_null, parse_json, parsed_json, pretty_json, pretty_print};

verus! {

/// How the exchange for one request ended.
pub enum Reply {
    /// A response arrived. `body` holds its bytes, or `None` where they could
    /// not be read to the end.
    Answered { body: Option<Vec<u8>> },
    /// No usable response: the HTTP status that the failure carries, if it
    /// carries one, and its description.
    Failed { status: Option<u16>, message: String },
}

/// A `Reply` as plain values.
pub enum ReplyView {
    Answered { body: Option<Seq<u8>> },
    Failed { status: Option<u16>, message: Seq<char> },
}

impl View for Reply {
    type V = ReplyView;

    open spec fn view(&self) -> ReplyView {
        match *self {
            Reply::Answered { body } => ReplyView::Answered {
                body: match body {
                    Some(bytes) => Some(bytes@),
                    None => None,
                },
            },
            Reply::Failed { status, message } => ReplyView::Failed { status, message: message@ },
        }
    }
}

/// The result of a request together with the diagnostic text to write for it.
pub struct Outcome {
    /// What the caller of the client gets.
    pub result: RestResult,
    /// The text to write to standard output; empty when there is none.
    pub log: String,
}

/// The JSON value that the bytes of a response spell, if they spell one.
pub open spec fn reply_json(body: Option<Seq<u8>>) -> Option<serde_json::Value> {
    match body {
        Some(bytes) => parsed_json(bytes),
        None => None,
    }
}

/// The diagnostic text for a response: for a verbose client that read a JSON
/// value, a heading, the value as indented JSON and a rule; otherwise nothing.
pub open spec fn response_log(verbose: bool, json: Option<serde_json::Value>) -> Seq<char> {
    match json {
        Some(value) if verbose => "Response:\n"@ + pretty_json(value) + "\n\n----\n\n"@,
        _ => Seq::empty(),
    }
}

/// Whether `result` and `log` are what a client with the given verbosity owes
/// for `reply`.
///
/// A response whose body is a JSON text gives that value; any other response
/// gives JSON `null` and is no failure. A failure gives its status and its
/// description, and writes nothing.
pub open spec fn settles(
    verbose: bool,
    reply: ReplyView,
    result: Result<serde_json::Value, ErrorView>,
    log: Seq<char>,
) -> bool {
    match reply {
        ReplyView::Answered { body } => {
            &&& log == response_log(verbose, reply_json(body))
            &&& match reply_json(body) {
                Some(value) => result == Ok::<serde_json::Value, ErrorView>(value),
                None => result is Ok && json_is_null(result->Ok_0),
            }
        },
        ReplyView::Failed { status, message } => {
            &&& log == Seq::<char>::empty()
            &&& status is Some
            &&& result == Err::<serde_json::Value, ErrorView>(
                ErrorView { status: status->Some_0, message },
            )
        },
    }
}

/// A `RestResult` with its failure as plain values.
pub open spec fn result_view(result: RestResult) -> Result<serde_json::Value, ErrorView> {
    match result {
        Ok(value) => Ok(value),
        Err(error) => Err(error@),
    }
}

impl Outcome {
    /// Whether this outcome is what a client with the given verbosity owes for
    /// `reply`.
    pub open spec fn settles(&self, verbose: bool, reply: ReplyView) -> bool {
        settles(verbose, reply, result_view(self.result), self.log@)
    }
}

/// Turns the bytes of a response into the caller's value and the text to write.
pub fn read_response(verbose: bool, body: Option<Vec<u8>>) -> (outcome: Outcome)
    ensures
        outcome.settles(
            verbose,
            ReplyView::Answered {
                body: match body {
                    Some(bytes) => Some(bytes@),
                    None => None,
                },
            },
        ),
{
    let parsed = match &body {
        Some(bytes) => parse_json(bytes.as_slice()),
        None => None,
    };
    match parsed {
        Some(value) => {
            let mut log = String::new();
            if verbose {
                let text = pretty_print(&value);
                log.append("Response:\n");
                log.append(text.as_str());
                log.append("\n\n----\n\n");
            }
            Outcome { result: Ok(value), log }
        },
        None => Outcome { result: Ok(json_null()), log: String::new() },
    }
}

/// Turns a failure that carries a status into the caller's error.
pub fn failure(status: u16, message: String) -> (outcome: Outcome)
    ensures
        result_view(outcome.result) == Err::<serde_json::Value, ErrorView>(
            ErrorView { status, message: message@ },
        ),
        outcome.log@ == Seq::<char>::empty(),
{
    Outcome { result: Err(Error { status, message }), log: String::new() }
}

/// Whether two results say the same: the same failure, or the same JSON value,
/// where any two JSON nulls are the same value.
pub open spec fn same_result(
    a: Result<serde_json::Value, ErrorView>,
    b: Result<serde_json::Value, ErrorView>,
) -> bool {
    match (a, b) {
        (Ok(x), Ok(y)) => x == y || (json_is_null(x) && json_is_null(y)),
        (Err(e), Err(f)) => e == f,
        _ => false,
    }
}

/// A reply settles one way. Whatever is made of the same reply twice, by a
/// quiet client or a verbose one, the two results say the same; and at the
/// same verbosity the same text is written.
pub proof fn lemma_reply_settles_one_way(
    reply: ReplyView,
    verbose_a: bool,
    result_a: Result<serde_json::Value, ErrorView>,
    log_a: Seq<char>,
    verbose_b: bool,
    result_b: Result<serde_json::Value, ErrorView>,
    log_b: Seq<char>,
)
    requires
        settles(verbose_a, reply, result_a, log_a),
        settles(verbose_b, reply, result_b, log_b),
    ensures
        same_result(result_a, result_b),
        verbose_a == verbose_b ==> log_a == log_b,
{
}

/// A response never settles as a failure, and a quiet client writes nothing
/// for any reply.
pub proof fn lemma_response_is_no_failure(
    verbose: bool,
    body: Option<Seq<u8>>,
    result: Result<serde_json::Value, ErrorView>,
    log: Seq<char>,
)
    requires
        settles(verbose, ReplyView::Answered { body }, result, log),
    ensures
        result is Ok,
        !verbose ==> log.len() == 0,
{
}

} // verus!
