//! One request, from its raw parts to the reply and the chat message, if any.
//!
//! Nothing here reads or sends: the caller hands in the headers and the
//! body it has read, and carries out what the verdict says.

use crate::body::{extract, Action, ActionView, Body};
use crate::error::{Error, ErrorView};
use crate::json::{parsed, Json, JsonView};
use crate::signature::{header_values, signature_verdict, verify_hmac};
use axum::http::header::HeaderMap;
use serde_json::Error as JsonError;
use vstd::prelude::*;

verus! {

/// A plain-text HTTP reply.
#[derive(Debug)]
pub struct Reply {
    pub status: u16,
    pub content_type: &'static str,
    pub body: &'static str,
}

/// The reply to a request that could not be authenticated or read.
pub fn server_error() -> (reply: Reply)
    ensures
        reply.status == 500,
        reply.content_type@ == "text/plain"@,
        reply.body@ == "Internal server Error"@,
{
    Reply { status: 500, content_type: "text/plain", body: "Internal server Error" }
}

/// The reply to a request that makes no sense: a body that is no JSON, or a
/// route that does not exist.
pub fn bad_request() -> (reply: Reply)
    ensures
        reply.status == 400,
        reply.content_type@ == "text/plain"@,
        reply.body@ == "Bad request"@,
{
    Reply { status: 400, content_type: "text/plain", body: "Bad request" }
}

/// The reply that acknowledges an event.
pub fn ok() -> (reply: Reply)
    ensures
        reply.status == 200,
        reply.content_type@ == "text/plain"@,
        reply.body@ == "Ok"@,
{
    Reply { status: 200, content_type: "text/plain", body: "Ok" }
}

/// What becomes of a request to the alert route.
///
/// A request whose signature is missing or unreadable fares like one whose
/// signature is wrong: both are answered with 500. An authenticated event
/// that cannot be relayed is still acknowledged with 200, so that the sender
/// does not send it again.
#[derive(Debug)]
pub enum Verdict {
    /// The signature could not be checked.
    Refused(Error),
    /// The signature is not the one of this body.
    Forged,
    /// The body is no JSON.
    Malformed(JsonError),
    /// The body announces an issue that is incomplete or of the wrong type.
    Unusable(Error),
    /// The body is an event that is not relayed.
    Unknown,
    /// The event to relay.
    Notify(Action),
}

/// The mathematical value of a [`Verdict`].
pub enum VerdictView {
    Refused(ErrorView),
    Forged,
    Malformed,
    Unusable(ErrorView),
    Unknown,
    Notify(ActionView),
}

impl VerdictView {
    /// The status of the reply: 500 where authentication fails, 400 where
    /// the body is no JSON, 200 otherwise.
    pub open spec fn status(self) -> int {
        match self {
            VerdictView::Refused(_) | VerdictView::Forged => 500,
            VerdictView::Malformed => 400,
            VerdictView::Unusable(_) | VerdictView::Unknown | VerdictView::Notify(_) => 200,
        }
    }

    /// The message to post, if any.
    pub open spec fn message(self) -> Option<Seq<char>> {
        match self {
            VerdictView::Notify(action) => Some(action.display()),
            _ => None,
        }
    }
}

/// The verdict on an authenticated document.
pub open spec fn document_verdict(document: JsonView) -> VerdictView {
    match extract(document) {
        Err(e) => VerdictView::Unusable(e),
        Ok(ActionView::Unknown) => VerdictView::Unknown,
        Ok(action) => VerdictView::Notify(action),
    }
}

/// The verdict on an authenticated body, given what decoding made of it.
pub open spec fn decoded_verdict(decoded: Option<JsonView>) -> VerdictView {
    match decoded {
        None => VerdictView::Malformed,
        Some(document) => document_verdict(document),
    }
}

/// The verdict on a request: authentication first, then decoding, then
/// extraction.
pub open spec fn alert_verdict(
    entries: Map<Seq<char>, Seq<u8>>,
    body: Seq<u8>,
    secret: Seq<u8>,
) -> VerdictView {
    match signature_verdict(entries, body, secret) {
        Err(e) => VerdictView::Refused(e),
        Ok(false) => VerdictView::Forged,
        Ok(true) => decoded_verdict(parsed(lossy_text(body))),
    }
}

/// A request that does not verify is answered with 500, and nothing is
/// posted: neither where the signature is wrong nor where it cannot be
/// checked.
pub proof fn law_unauthenticated_is_refused(
    entries: Map<Seq<char>, Seq<u8>>,
    body: Seq<u8>,
    secret: Seq<u8>,
)
    requires
        signature_verdict(entries, body, secret) != Ok::<bool, ErrorView>(true),
    ensures
        alert_verdict(entries, body, secret).status() == 500,
        alert_verdict(entries, body, secret).message() is None,
{
}

/// A document that yields an issue is answered with 200 and relayed as
/// "{project}: issue `{title}` created at {time} ({level})".
pub proof fn law_issue_is_relayed(
    document: JsonView,
    title: Seq<char>,
    project: Seq<char>,
    time: Seq<char>,
    level: Seq<char>,
)
    requires
        extract(document) == Ok::<ActionView, ErrorView>(
            ActionView::IssueCreated { title, project, time, level },
        ),
    ensures
        document_verdict(document).status() == 200,
        document_verdict(document).message() == Some(
            project + ": issue `"@ + title + "` created at "@ + time + " ("@ + level + ")"@,
        ),
{
}

/// An authenticated request fares as its decoded body does: 400 where the
/// body is no JSON, the verdict on the document otherwise.
pub proof fn law_authenticated_body_decides(
    entries: Map<Seq<char>, Seq<u8>>,
    body: Seq<u8>,
    secret: Seq<u8>,
)
    requires
        signature_verdict(entries, body, secret) == Ok::<bool, ErrorView>(true),
    ensures
        alert_verdict(entries, body, secret) == decoded_verdict(parsed(lossy_text(body))),
        parsed(lossy_text(body)) is None ==> alert_verdict(entries, body, secret).status() == 400,
        parsed(lossy_text(body)) is Some ==> alert_verdict(entries, body, secret).status() == 200,
{
}

/// Whatever the request, the reply is 200, 400 or 500; a message is posted
/// only with 200, and it is never the one of the unknown event.
pub proof fn law_reply_and_message(
    entries: Map<Seq<char>, Seq<u8>>,
    body: Seq<u8>,
    secret: Seq<u8>,
)
    ensures
        ({
            let status = alert_verdict(entries, body, secret).status();
            status == 200 || status == 400 || status == 500
        }),
        alert_verdict(entries, body, secret).message() is Some ==> alert_verdict(
            entries,
            body,
            secret,
        ).status() == 200,
        alert_verdict(entries, body, secret) != VerdictView::Notify(ActionView::Unknown),
{
}

impl Verdict {
    pub open spec fn view(&self) -> VerdictView {
        match self {
            Verdict::Refused(e) => VerdictView::Refused(e@),
            Verdict::Forged => VerdictView::Forged,
            Verdict::Malformed(_) => VerdictView::Malformed,
            Verdict::Unusable(e) => VerdictView::Unusable(e@),
            Verdict::Unknown => VerdictView::Unknown,
            Verdict::Notify(action) => VerdictView::Notify(action@),
        }
    }

    /// The reply to the sender.
    pub fn reply(&self) -> (reply: Reply)
        ensures
            reply.status == self@.status(),
            reply.content_type@ == "text/plain"@,
            reply.body@ == (if reply.status == 500 {
                "Internal server Error"@
            } else if reply.status == 400 {
                "Bad request"@
            } else {
                "Ok"@
            }),
    {
        match self {
            Verdict::Refused(_) | Verdict::Forged => server_error(),
            Verdict::Malformed(_) => bad_request(),
            Verdict::Unusable(_) | Verdict::Unknown | Verdict::Notify(_) => ok(),
        }
    }

    /// The message to post to the chat channel, if any.
    pub fn message(&self) -> (message: Option<String>)
        ensures
            match message {
                Some(text) => self@.message() == Some(text@),
                None => self@.message() is None,
            },
    {
        match self {
            Verdict::Notify(action) => Some(action.to_string()),
            _ => None,
        }
    }
}

/// Decides on an authenticated document.
pub fn handle_document(document: &Body) -> (verdict: Verdict)
    ensures
        verdict@ == document_verdict(document@),
{
    match document.action() {
        Err(e) => Verdict::Unusable(e),
        Ok(Action::Unknown) => Verdict::Unknown,
        Ok(action) => Verdict::Notify(action),
    }
}

/// Decides on an authenticated body, given what decoding made of it.
pub fn handle_decoded(decoded: Result<Json, JsonError>) -> (verdict: Verdict)
    ensures
        verdict@ == decoded_verdict(
            match decoded {
                Ok(document) => Some(document@),
                Err(_) => None,
            },
        ),
{
    match decoded {
        Err(e) => Verdict::Malformed(e),
        Ok(document) => handle_document(&Body(document)),
    }
}

/// Decides on a request to the alert route.
pub fn handle_alert(headers: &HeaderMap, body: &[u8], secret: &[u8]) -> (verdict: Verdict)
    ensures
        verdict@ == alert_verdict(header_values(*headers), body@, secret@),
        verdict@ != VerdictView::Refused(ErrorView::InvalidSecret),
{
    match verify_hmac(headers, body, secret) {
        Err(e) => Verdict::Refused(e),
        Ok(false) => Verdict::Forged,
        Ok(true) => {
            let text = utf8_lossy(body);
            handle_decoded(Json::parse(text.as_str()))
        },
    }
}

/// The text that `String::from_utf8_lossy` reads from bytes.
pub uninterp spec fn lossy_text(bytes: Seq<u8>) -> Seq<char>;

/// `String::from_utf8_lossy`. Trusted: the text is named, not described; it
/// depends on the bytes alone.
#[verifier::external_body]
fn utf8_lossy(bytes: &[u8]) -> (text: String)
    ensures
        text@ == lossy_text(bytes@),
{
    String::from_utf8_lossy(bytes).into_owned()
}

} // verus!
