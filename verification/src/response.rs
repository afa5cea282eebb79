//! The answer that goes back over HTTP for a health result.
//!
//! Every answer has status 200 and a JSON object with a single field:
//! `message` when the database answered, `error` when it did not. A caller
//! tells the two apart by the body, never by the status.

use crate::health::{check_health, health_of, HealthResult, HealthResultView, ProbeOutcome};
use vstd::prelude::*;
use vstd::string::*;

verus! {

/// The status of every answer, whatever the probe came to.
pub const STATUS_OK: u16 = 200;

/// The single field of the JSON body.
#[derive(Clone, Copy, Debug, PartialEq, Eq, Structural)]
pub enum BodyField {
    /// `message`: the database answered.
    Message,
    /// `error`: the probe failed or ran out of time.
    Error,
}

/// The answer to one health check request.
#[derive(Debug, PartialEq, Eq)]
pub struct HealthResponse {
    /// The HTTP status.
    pub status: u16,
    /// The field of the JSON body.
    pub field: BodyField,
    /// The text under that field.
    pub text: String,
}

/// The mathematical value of a [`HealthResponse`].
pub struct HealthResponseView {
    pub status: u16,
    pub field: BodyField,
    pub text: Seq<char>,
}

impl View for HealthResponse {
    type V = HealthResponseView;

    open spec fn view(&self) -> HealthResponseView {
        HealthResponseView { status: self.status, field: self.field, text: self.text@ }
    }
}

/// The text sent when the database answered.
pub open spec fn greeting() -> Seq<char> {
    "Hello World with DB!"@
}

/// The name of a body field as it stands in the JSON object.
pub open spec fn field_key(field: BodyField) -> Seq<char> {
    match field {
        BodyField::Message => "message"@,
        BodyField::Error => "error"@,
    }
}

/// The answer that belongs to a health result.
pub open spec fn response_of(result: HealthResultView) -> HealthResponseView {
    match result {
        HealthResultView::Success => HealthResponseView {
            status: STATUS_OK,
            field: BodyField::Message,
            text: greeting(),
        },
        HealthResultView::Failure(message) => HealthResponseView {
            status: STATUS_OK,
            field: BodyField::Error,
            text: message,
        },
        HealthResultView::Timeout(message) => HealthResponseView {
            status: STATUS_OK,
            field: BodyField::Error,
            text: message,
        },
    }
}

/// The compact JSON text of an object with one field, `key`, whose value is
/// the string `value`, as `serde_json` writes it.
pub uninterp spec fn json_object_text(key: Seq<char>, value: Seq<char>) -> Seq<char>;

/// Whether JSON writes the character with an escape: the control characters
/// below the space, the double quote and the backslash.
pub open spec fn needs_escape(c: char) -> bool {
    (c as u32) < 0x20 || c == '"' || c == '\\'
}

/// No character of the text is written with an escape.
pub open spec fn json_plain(text: Seq<char>) -> bool {
    forall|i: int| 0 <= i < text.len() ==> !needs_escape(#[trigger] text[i])
}

/// The JSON text of a one-field object whose key and value need no escape:
/// both stand in it as they are, in double quotes, with a colon between them
/// and braces around them.
pub open spec fn plain_object_text(key: Seq<char>, value: Seq<char>) -> Seq<char> {
    "{\""@ + key + "\":\""@ + value + "\"}"@
}

/// Builds the `serde_json::Value` object `{key: value}` and renders it with
/// the `Display` impl of `serde_json::Value`, which writes the compact form
/// that `serde_json::to_vec` produces. The text depends on the two strings
/// alone, and the contract gives it a name. Of the text itself it claims one
/// thing: `serde_json` escapes the control characters, the double quote and
/// the backslash and nothing else, so strings without these stand in the text
/// unchanged.
#[verifier::external_body]
fn json_object(key: &str, value: &str) -> (text: String)
    ensures
        text@ == json_object_text(key@, value@),
        json_plain(key@) && json_plain(value@) ==> text@ == plain_object_text(key@, value@),
{
    let mut fields = serde_json::Map::new();
    fields.insert(key.to_string(), serde_json::Value::String(value.to_string()));
    serde_json::Value::Object(fields).to_string()
}

/// The names of the two fields need no escape.
pub proof fn field_keys_are_plain(field: BodyField)
    ensures
        json_plain(field_key(field)),
{
    reveal_strlit("message");
    reveal_strlit("error");
}

impl BodyField {
    /// The name of the field as it stands in the JSON object.
    pub fn key(&self) -> (key: &'static str)
        ensures
            key@ == field_key(*self),
    {
        match self {
            BodyField::Message => "message",
            BodyField::Error => "error",
        }
    }
}

impl HealthResponse {
    /// The value of the `Content-Type` header of every answer.
    pub fn content_type(&self) -> (value: &'static str)
        ensures
            value@ == "application/json"@,
    {
        "application/json"
    }

    /// The body as JSON text: one object with the one field. Where the text
    /// under the field needs no escape, the body is the field's name and the
    /// text, each in double quotes, with a colon between them and braces
    /// around them.
    pub fn body_json(&self) -> (body: String)
        ensures
            body@ == json_object_text(field_key(self.field), self.text@),
            json_plain(self.text@) ==> body@ == plain_object_text(
                field_key(self.field),
                self.text@,
            ),
    {
        proof {
            field_keys_are_plain(self.field);
        }
        json_object(self.field.key(), self.text.as_str())
    }
}

/// Turns a health result into the answer for the caller. A failure and a
/// timeout are reported in the body; the status stays 200.
pub fn health_response(result: HealthResult) -> (response: HealthResponse)
    ensures
        response@ == response_of(result@),
{
    match result {
        HealthResult::Success => HealthResponse {
            status: STATUS_OK,
            field: BodyField::Message,
            text: String::from_str("Hello World with DB!"),
        },
        HealthResult::Failure(message) => HealthResponse {
            status: STATUS_OK,
            field: BodyField::Error,
            text: message,
        },
        HealthResult::Timeout(message) => HealthResponse {
            status: STATUS_OK,
            field: BodyField::Error,
            text: message,
        },
    }
}

/// Handles one request to the health check route, given what the probe came
/// to: judges the probe and builds the answer. No fault of the probe leaves
/// this function in any other form than the answer's body.
pub fn db_healthcheck_handler(outcome: ProbeOutcome) -> (response: HealthResponse)
    ensures
        response@ == response_of(health_of(outcome@)),
{
    health_response(check_health(outcome))
}

} // verus!
