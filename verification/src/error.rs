//! What can go wrong between an incoming request and the event it carries.

use axum::http::header::ToStrError;
use vstd::prelude::*;
use vstd::string::StringExecFns;

verus! {

#[verifier::external_type_specification]
#[verifier::external_body]
pub struct ExToStrError(ToStrError);

#[derive(Debug)]
pub enum Error {
    /// The request has no header of this name.
    MissingHeaderEntry(&'static str),
    /// The header of this name holds bytes that are no visible ASCII.
    ToStr(&'static str, ToStrError),
    /// The event has no field at this path.
    MissingField(&'static str),
    /// The field at this path is of the wrong type: it is no string, or,
    /// for the issue itself, no object.
    FieldType(&'static str),
    /// The signing key was refused. HMAC-SHA256 takes every key, so that
    /// authentication never ends this way.
    InvalidSecret,
    /// The document is not an event of this kind: read as one, it holds no
    /// object to read.
    NotAction(&'static str),
}

/// An error without the outside value that caused it.
pub enum ErrorView {
    MissingHeaderEntry(Seq<char>),
    ToStr(Seq<char>),
    MissingField(Seq<char>),
    FieldType(Seq<char>),
    InvalidSecret,
    NotAction(Seq<char>),
}

impl ErrorView {
    /// The line that describes the error.
    pub open spec fn message(self) -> Seq<char> {
        match self {
            ErrorView::MissingHeaderEntry(entry) => "missing header entry "@ + entry,
            ErrorView::ToStr(field) => "failed to convert field "@ + field + ": "@
                + "failed to convert header to a str"@,
            ErrorView::MissingField(field) => "field "@ + field + " is missing"@,
            ErrorView::FieldType(field) => "field "@ + field + " is of wrong type"@,
            ErrorView::InvalidSecret => "sentry secret is not valid"@,
            ErrorView::NotAction(action) => "action is not of type "@ + action,
        }
    }
}

impl Error {
    pub open spec fn view(&self) -> ErrorView {
        match self {
            Error::MissingHeaderEntry(entry) => ErrorView::MissingHeaderEntry(entry@),
            Error::ToStr(field, _) => ErrorView::ToStr(field@),
            Error::MissingField(field) => ErrorView::MissingField(field@),
            Error::FieldType(field) => ErrorView::FieldType(field@),
            Error::InvalidSecret => ErrorView::InvalidSecret,
            Error::NotAction(action) => ErrorView::NotAction(action@),
        }
    }

    /// The line that describes the error.
    pub fn to_string(&self) -> (text: String)
        ensures
            text@ == self@.message(),
    {
        match self {
            Error::MissingHeaderEntry(entry) => {
                let mut text = "missing header entry ".to_owned();
                text.append(entry);
                text
            },
            Error::ToStr(field, cause) => {
                let mut text = "failed to convert field ".to_owned();
                text.append(field);
                text.append(": ");
                let reason = to_str_error_text(cause);
                text.append(reason.as_str());
                text
            },
            Error::MissingField(field) => {
                let mut text = "field ".to_owned();
                text.append(field);
                text.append(" is missing");
                text
            },
            Error::FieldType(field) => {
                let mut text = "field ".to_owned();
                text.append(field);
                text.append(" is of wrong type");
                text
            },
            Error::InvalidSecret => "sentry secret is not valid".to_owned(),
            Error::NotAction(action) => {
                let mut text = "action is not of type ".to_owned();
                text.append(action);
                text
            },
        }
    }
}

/// `to_string` of the `http` crate's `ToStrError`. Trusted: its `Display`
/// writes one fixed line, the one stated here.
#[verifier::external_body]
fn to_str_error_text(cause: &ToStrError) -> (text: String)
    ensures
        text@ == "failed to convert header to a str"@,
{
    cause.to_string()
}

} // verus!
