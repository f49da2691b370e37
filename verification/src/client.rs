//! The client: what it is built with, the requests it plans and the replies it
//! settles. It sends nothing itself; whoever holds the connection sends the
//! planned request and hands back the reply.

use vstd::prelude::*;
use crate::header::{bearer, bearer_value, header_text};
use crate::method::Method;
use crate::reply::{failure, read_response, Outcome, Reply};
use crate::request::{request_log, write_request_log, Request, RequestView};

verus! {

/// A REST client: the `Authorization` value that each of its requests carries,
/// if it was built with a token, and whether it writes diagnostics. Neither
/// changes after construction.
pub struct RestClient {
    authorization: Option<String>,
    verbose: bool,
}

/// A `RestClient` as plain values.
pub struct ClientView {
    pub authorization: Option<Seq<char>>,
    pub verbose: bool,
}

/// The client that `RestClient::new` builds.
pub open spec fn plain_client(verbose: bool) -> ClientView {
    ClientView { authorization: None, verbose }
}

/// The client that `RestClient::new_authed` builds for `token`.
pub open spec fn authed_client(token: Seq<char>, verbose: bool) -> ClientView {
    ClientView { authorization: Some(bearer(token)), verbose }
}

/// The request that `client` plans for a verb, an address and a payload: all
/// three as given, the client's `Authorization` value, and the diagnostic text
/// that the client's verbosity asks for.
pub open spec fn planned(
    client: ClientView,
    method: Method,
    url: Seq<char>,
    body: Option<serde_json::Value>,
) -> RequestView {
    RequestView {
        method,
        url,
        authorization: client.authorization,
        body,
        log: request_log(client.verbose, method, url, body),
    }
}

impl View for RestClient {
    type V = ClientView;

    closed spec fn view(&self) -> ClientView {
        ClientView {
            authorization: match self.authorization {
                Some(value) => Some(value@),
                None => None,
            },
            verbose: self.verbose,
        }
    }
}

impl RestClient {
    /// Builds a client whose requests carry no `Authorization` header.
    pub fn new(verbose: bool) -> (client: RestClient)
        ensures
            client@ == plain_client(verbose),
    {
        RestClient { authorization: None, verbose }
    }

    /// Builds a client whose every request carries `Authorization: Bearer`
    /// followed by `jwt`. The token must be one that a header can hold.
    pub fn new_authed(jwt: String, verbose: bool) -> (client: RestClient)
        requires
            header_text(bearer(jwt@)),
        ensures
            client@ == authed_client(jwt@, verbose),
    {
        RestClient { authorization: Some(bearer_value(jwt.as_str())), verbose }
    }

    /// Whether the client writes diagnostics.
    pub fn verbose(&self) -> (verbose: bool)
        ensures
            verbose == self@.verbose,
    {
        self.verbose
    }

    /// The value of the `Authorization` header that each request carries.
    pub fn authorization(&self) -> (value: Option<&str>)
        ensures
            value is Some == self@.authorization is Some,
            value is Some ==> value->Some_0@ == self@.authorization->Some_0,
    {
        match &self.authorization {
            Some(value) => Some(value.as_str()),
            None => None,
        }
    }

    /// Plans a `GET` of `url`.
    pub fn get(&self, url: String) -> (request: Request)
        ensures
            request@ == planned(self@, Method::GET, url@, None),
    {
        self.call(Method::GET, url, None)
    }

    /// Plans a `POST` of `body` to `url`.
    pub fn post(&self, url: String, body: serde_json::Value) -> (request: Request)
        ensures
            request@ == planned(self@, Method::POST, url@, Some(body)),
    {
        self.call(Method::POST, url, Some(body))
    }

    /// Plans a `PATCH` of `url` with `body`.
    pub fn patch(&self, url: String, body: serde_json::Value) -> (request: Request)
        ensures
            request@ == planned(self@, Method::PATCH, url@, Some(body)),
    {
        self.call(Method::PATCH, url, Some(body))
    }

    /// Plans a `DELETE` of `url`.
    pub fn delete(&self, url: String) -> (request: Request)
        ensures
            request@ == planned(self@, Method::DELETE, url@, None),
    {
        self.call(Method::DELETE, url, None)
    }

    /// Plans a request with the given verb: the one path that every request
    /// takes.
    pub fn call(&self, method: Method, url: String, body: Option<serde_json::Value>) -> (request:
        Request)
        ensures
            request@ == planned(self@, method, url@, body),
    {
        let log = write_request_log(self.verbose, method, url.as_str(), &body);
        let authorization = match &self.authorization {
            Some(value) => Some(value.clone()),
            None => None,
        };
        Request { method, url, authorization, body, log }
    }

    /// Settles the reply to a request of this client: the caller's result and
    /// the diagnostic text to write. A failure must carry a status.
    pub fn finish(&self, reply: Reply) -> (outcome: Outcome)
        requires
            reply matches Reply::Failed { status, .. } ==> status is Some,
        ensures
            outcome.settles(self@.verbose, reply@),
    {
        match reply {
            Reply::Answered { body } => read_response(self.verbose, body),
            Reply::Failed { status, message } => failure(status.unwrap(), message),
        }
    }
}

/// Every request of a client built with a token presents that token: whatever
/// the verb, the address and the payload, the planned request carries
/// `Authorization: Bearer` followed by the token.
pub proof fn lemma_authed_request_presents_token(
    token: Seq<char>,
    verbose: bool,
    method: Method,
    url: Seq<char>,
    body: Option<serde_json::Value>,
)
    ensures
        planned(authed_client(token, verbose), method, url, body).authorization == Some(
            bearer(token),
        ),
{
}

/// No request of a client built without a token carries an `Authorization`
/// header.
pub proof fn lemma_plain_request_presents_nothing(
    verbose: bool,
    method: Method,
    url: Seq<char>,
    body: Option<serde_json::Value>,
)
    ensures
        planned(plain_client(verbose), method, url, body).authorization is None,
{
}

} // verus!
