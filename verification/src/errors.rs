//! The three ways in which an operation of the application fails.

use vstd::prelude::*;
use vstd::string::StringExecFns;

verus! {

/// Why an operation failed. The text held by `BadRequest` and `NotFound` is
/// meant for the caller; the text held by `Internal` is the cause, which is
/// kept from the caller.
#[derive(Debug)]
pub enum AppError {
    /// The caller's input breaks a rule.
    BadRequest(String),
    /// The order asked for does not exist.
    NotFound(String),
    /// The store failed.
    Internal(String),
}

/// The JSON string literal of a text: the text between quotes, with escapes
/// where JSON asks for them.
pub uninterp spec fn json_string(text: Seq<char>) -> Seq<char>;

/// `serde_json::to_string` of a text: its JSON string literal, which depends
/// on the text alone. A text is always encoded: the call writes into memory,
/// and the encoding of a text has no failing step.
#[verifier::external_body]
fn to_json_string(text: &str) -> (r: Option<String>)
    ensures
        r is Some,
        r matches Some(literal) ==> literal@ == json_string(text@),
{
    serde_json::to_string(text).ok()
}

/// The JSON body that tells a caller of a failure: an object with the one
/// member `error`, or the fixed body that is sent where the message could
/// not be encoded.
pub open spec fn error_body_text(literal: Option<Seq<char>>) -> Seq<char> {
    match literal {
        Some(l) => "{\"error\":"@ + l + "}"@,
        None => "{\"error\":\"internal serialization\"}"@,
    }
}

/// The JSON body for a message whose JSON string literal is `literal`, or for
/// a message that could not be encoded.
pub fn error_body_of(literal: Option<String>) -> (body: String)
    ensures
        literal matches Some(l) ==> body@ == error_body_text(Some(l@)),
        literal is None ==> body@ == error_body_text(None),
{
    match literal {
        Some(l) => "{\"error\":".to_owned().concat(l.as_str()).concat("}"),
        None => "{\"error\":\"internal serialization\"}".to_owned(),
    }
}

/// The content type of a JSON body.
pub open spec fn json_content_type() -> Seq<char> {
    "application/json"@
}

impl AppError {
    /// The HTTP status that stands for this failure.
    pub open spec fn status(self) -> u16 {
        match self {
            AppError::BadRequest(_) => 400,
            AppError::NotFound(_) => 404,
            AppError::Internal(_) => 500,
        }
    }

    /// What the caller is told: the held text, but for `Internal`, whose
    /// cause is replaced by a fixed phrase.
    pub open spec fn public_text(self) -> Seq<char> {
        match self {
            AppError::BadRequest(m) => m@,
            AppError::NotFound(m) => m@,
            AppError::Internal(_) => "internal error"@,
        }
    }

    /// The text of this failure in a log.
    pub open spec fn text(self) -> Seq<char> {
        match self {
            AppError::BadRequest(m) => "Bad request: "@ + m@,
            AppError::NotFound(m) => "Order not found: "@ + m@,
            AppError::Internal(_) => "Internal error"@,
        }
    }

    /// The HTTP status that stands for this failure: 400, 404 or 500.
    pub fn status_code(&self) -> (code: u16)
        ensures
            code == self.status(),
    {
        match self {
            AppError::BadRequest(_) => 400,
            AppError::NotFound(_) => 404,
            AppError::Internal(_) => 500,
        }
    }

    /// What the caller is told.
    pub fn public_message(&self) -> (s: String)
        ensures
            s@ == self.public_text(),
    {
        match self {
            AppError::BadRequest(m) => m.clone(),
            AppError::NotFound(m) => m.clone(),
            AppError::Internal(_) => "internal error".to_owned(),
        }
    }

    /// The JSON body that answers the caller of this failure: the object
    /// with the one member `error`, which holds what the caller is told.
    pub open spec fn body_text(self) -> Seq<char> {
        error_body_text(Some(json_string(self.public_text())))
    }

    /// The JSON body that answers the caller: `{"error": ...}` with what the
    /// caller is told. The cause of an internal failure is not in it.
    pub fn body(&self) -> (body: String)
        ensures
            body@ == self.body_text(),
    {
        let told = self.public_message();
        error_body_of(to_json_string(told.as_str()))
    }

    /// The response that answers the caller: the status, the content type,
    /// which is that of JSON, and the body.
    pub fn response(&self) -> (r: (u16, &'static str, String))
        ensures
            r.0 == self.status(),
            r.1@ == json_content_type(),
            r.2@ == self.body_text(),
    {
        (self.status_code(), "application/json", self.body())
    }

    /// The text of this failure in a log.
    pub fn message(&self) -> (s: String)
        ensures
            s@ == self.text(),
    {
        match self {
            AppError::BadRequest(m) => "Bad request: ".to_owned().concat(m.as_str()),
            AppError::NotFound(m) => "Order not found: ".to_owned().concat(m.as_str()),
            AppError::Internal(_) => "Internal error".to_owned(),
        }
    }
}

} // verus!
