//! The chat service: what is sent to it, and what its answer means.
//!
//! The request itself is made elsewhere; this module says what to send and
//! reads what came back.

use crate::json::{json_of_value, members_view, rendered, value_view, Json, JsonView};
use minreq::Error as TransportError;
use serde_json::Value;
use std::collections::HashMap;
use vstd::prelude::*;
use vstd::string::StringExecFns;

verus! {

#[verifier::external_type_specification]
#[verifier::external_body]
pub struct ExTransportError(TransportError);

/// The status with which the chat service reports a new post.
pub const CREATED: i32 = 201;

/// How long to wait for the chat service, in seconds. Waiting longer counts
/// as a failed exchange.
pub const TIMEOUT_SECONDS: u64 = 5;

/// The `Content-Type` of a request that carries a JSON body.
pub const JSON_CONTENT_TYPE: &'static str = "application/json; charset=UTF-8";

/// Where posts are created, below the base URL.
pub const POSTS_ENDPOINT: &'static str = "/api/v4/posts";

#[derive(Debug)]
pub enum Error {
    /// The exchange itself failed, or the answer was no JSON.
    MinReq(TransportError),
    /// The service answered with another status than "created"; with the
    /// `message` of its answer, rendered as JSON, where it has one.
    PostFail(i32, Option<String>),
}

/// The mathematical value of an [`Error`].
pub enum ErrorView {
    MinReq(TransportError),
    PostFail(int, Option<Seq<char>>),
}

impl Error {
    pub open spec fn view(&self) -> ErrorView {
        match self {
            Error::MinReq(cause) => ErrorView::MinReq(*cause),
            Error::PostFail(status, message) => ErrorView::PostFail(
                *status as int,
                match message {
                    Some(text) => Some(text@),
                    None => None,
                },
            ),
        }
    }
}

impl From<TransportError> for Error {
    fn from(value: TransportError) -> (error: Error) {
        Error::MinReq(value)
    }
}

impl vstd::std_specs::convert::FromSpecImpl<TransportError> for Error {
    open spec fn obeys_from_spec() -> bool {
        true
    }

    open spec fn from_spec(value: TransportError) -> Error {
        Error::MinReq(value)
    }
}

/// An answer of the chat service.
#[derive(Debug)]
pub struct Response {
    pub status: i32,
    pub request: String,
    pub headers: HashMap<String, String>,
    pub body: Json,
}

/// The `message` of an answer, rendered as JSON, where the answer has one.
pub open spec fn failure_message(body: JsonView) -> Option<Seq<char>> {
    match body.member("message"@) {
        Some(message) => Some(rendered(message)),
        None => None,
    }
}

/// What an answer says of a post: it was created where the status is
/// [`CREATED`]; any other status is a failure that carries the status and
/// the message.
pub open spec fn post_outcome(status: int, body: JsonView) -> Result<(), ErrorView> {
    if status == CREATED {
        Ok(())
    } else {
        Err(ErrorView::PostFail(status, failure_message(body)))
    }
}

/// The mathematical value of a post's outcome.
pub open spec fn post_view(outcome: Result<(), Error>) -> Result<(), ErrorView> {
    match outcome {
        Ok(()) => Ok(()),
        Err(e) => Err(e@),
    }
}

impl Response {
    /// Puts an answer together from its parts: the status and headers as
    /// received, and the body as decoding left it. An answer whose body
    /// could not be decoded is a transport failure.
    pub fn from_minreq(
        request: &str,
        status_code: i32,
        headers: HashMap<String, String>,
        body: Result<Value, TransportError>,
    ) -> (outcome: Result<Response, Error>)
        ensures
            match body {
                Ok(value) => (outcome matches Ok(response) && response.status == status_code
                    && response.request@ == request@ && response.headers == headers
                    && response.body@ == value_view(value)),
                Err(cause) => (outcome matches Err(e) && e@ == ErrorView::MinReq(cause)),
            },
    {
        match body {
            Ok(value) => Ok(
                Response {
                    status: status_code,
                    request: request.to_owned(),
                    headers,
                    body: json_of_value(value),
                },
            ),
            Err(cause) => Err(Error::from(cause)),
        }
    }

    /// Whether this answer reports a new post, and what to report if not.
    pub fn created(&self) -> (outcome: Result<(), Error>)
        ensures
            post_view(outcome) == post_outcome(self.status as int, self.body@),
    {
        if self.status == CREATED {
            Ok(())
        } else {
            let message = match self.body.get("message") {
                Some(message) => Some(message.to_text()),
                None => None,
            };
            Err(Error::PostFail(self.status, message))
        }
    }
}

/// The chat service as seen from here: where it is, and the token that
/// opens it.
#[derive(Debug)]
pub struct Client {
    base_url: String,
    token: String,
}

/// The body of the request that creates a post.
pub open spec fn post_payload_view(channel_id: Seq<char>, message: Seq<char>) -> JsonView {
    JsonView::Object(
        Map::empty().insert("channel_id"@, JsonView::Text(channel_id)).insert(
            "message"@,
            JsonView::Text(message),
        ),
    )
}

impl Client {
    pub closed spec fn base_url(&self) -> Seq<char> {
        self.base_url@
    }

    pub closed spec fn token(&self) -> Seq<char> {
        self.token@
    }

    /// A client for the service at `base_url`, with the token that opens it.
    pub fn new(base_url: &str, token: &str) -> (client: Client)
        ensures
            client.base_url() == base_url@,
            client.token() == token@,
    {
        Client { base_url: base_url.to_owned(), token: token.to_owned() }
    }

    /// The address of an endpoint: the base URL, then the endpoint, with
    /// nothing in between.
    pub fn url(&self, endpoint: &str) -> (url: String)
        ensures
            url@ == self.base_url() + endpoint@,
    {
        let mut url = self.base_url.clone();
        url.append(endpoint);
        url
    }

    /// The value of the `Authorization` header.
    pub fn authorization(&self) -> (value: String)
        ensures
            value@ == "Bearer "@ + self.token(),
    {
        let mut value = "Bearer ".to_owned();
        value.append(self.token.as_str());
        value
    }

    /// The line that names a request in a [`Response`].
    pub fn request_line(method: &str, endpoint: &str) -> (line: String)
        ensures
            line@ == method@ + " "@ + endpoint@,
    {
        let mut line = method.to_owned();
        line.append(" ");
        line.append(endpoint);
        line
    }

    /// The body of the request that creates a post.
    pub fn post_payload(channel_id: &str, message: &str) -> (payload: Json)
        ensures
            payload@ == post_payload_view(channel_id@, message@),
    {
        let mut members: Vec<(String, Json)> = Vec::new();
        members.push(("channel_id".to_owned(), Json::Text(channel_id.to_owned())));
        members.push(("message".to_owned(), Json::Text(message.to_owned())));
        proof {
            let first = members@.drop_last();
            assert(first.len() == 1 && first.last() == members@[0]);
            assert(members@.last() == members@[1]);
            assert(members@[0].1@ == JsonView::Text(channel_id@));
            assert(members@[1].1@ == JsonView::Text(message@));
            assert(members_view(first.drop_last()) == Map::<Seq<char>, JsonView>::empty());
            assert(members_view(first) == Map::<Seq<char>, JsonView>::empty().insert(
                "channel_id"@,
                JsonView::Text(channel_id@),
            ));
        }
        Json::Object(members)
    }
}

} // verus!
