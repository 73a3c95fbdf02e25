//! The JSON bodies of the answers.

use vstd::prelude::*;

verus! {

/// The JSON string literal for `text`: the text between double quotes, with
/// the escapes that JSON asks for.
pub uninterp spec fn json_string(text: Seq<char>) -> Seq<char>;

/// Writes `serde_json::Value::String` of the text through its `Display`,
/// which gives the compact form. Taken on trust: that what is written
/// depends on the text alone.
#[verifier::external_body]
fn json_string_text(text: &str) -> (literal: String)
    ensures
        literal@ == json_string(text@),
{
    serde_json::Value::String(text.to_owned()).to_string()
}

/// The body that tells a client its session: one object with one member.
pub open spec fn session_body(id: Seq<char>) -> Seq<char> {
    "{\"session\":"@ + json_string(id) + "}"@
}

/// Frames a JSON value as the member `session` of an object.
pub fn frame_session_body(value: &str) -> (body: String)
    ensures
        body@ == "{\"session\":"@ + value@ + "}"@,
{
    let mut body = String::from_str("{\"session\":");
    body.append(value);
    body.append("}");
    body
}

/// Writes the body for a session id.
pub fn write_session_body(id: &str) -> (body: String)
    ensures
        body@ == session_body(id@),
{
    let literal = json_string_text(id);
    frame_session_body(literal.as_str())
}

} // verus!
