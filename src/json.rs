use vstd::prelude::*;

use crate::error::{ErrorView, ServiceError};

verus! {

#[verifier::external_type_specification]
#[verifier::external_body]
pub struct ExJsonValue(serde_json::Value);

#[verifier::external_type_specification]
#[verifier::external_body]
#[verifier::reject_recursive_types(K)]
#[verifier::reject_recursive_types(V)]
pub struct ExJsonMap<K, V>(serde_json::Map<K, V>);

/// A decoded JSON object: its members by name.
pub type JsonObject = serde_json::Map<String, serde_json::Value>;

/// Whether `text` decodes as a JSON document whose top level is an object.
pub uninterp spec fn json_object_text(text: Seq<char>) -> bool;

/// The names of an object's members.
pub uninterp spec fn json_keys(m: serde_json::Map<String, serde_json::Value>) -> Set<Seq<char>>;

/// The members of an object whose values are strings, with those strings.
pub uninterp spec fn json_string_members(m: serde_json::Map<String, serde_json::Value>) -> Map<
    Seq<char>,
    Seq<char>,
>;

/// The members of an object whose values are arrays, with their lengths.
pub uninterp spec fn json_array_lengths(m: serde_json::Map<String, serde_json::Value>) -> Map<
    Seq<char>,
    nat,
>;

/// The names of the members of the object that `text` decodes to.
pub uninterp spec fn json_text_keys(text: Seq<char>) -> Set<Seq<char>>;

/// The members of the object that `text` decodes to whose values are
/// strings, with those strings.
pub uninterp spec fn json_text_strings(text: Seq<char>) -> Map<Seq<char>, Seq<char>>;

/// The members of the object that `text` decodes to whose values are arrays,
/// with their lengths.
pub uninterp spec fn json_text_array_lengths(text: Seq<char>) -> Map<Seq<char>, nat>;

/// A lower-case hexadecimal digit, for `n < 16`.
pub open spec fn hex_digit(n: nat) -> char {
    if n < 10 {
        ((n + 48) as u8) as char
    } else {
        ((n + 87) as u8) as char
    }
}

/// How one character is written inside a JSON string: quote and backslash
/// escaped, the five short control escapes, other control characters as
/// `\u00XX`, everything else as it is.
pub open spec fn json_escape(c: char) -> Seq<char> {
    if c == '"' {
        seq!['\\', '"']
    } else if c == '\\' {
        seq!['\\', '\\']
    } else if c == '\x08' {
        seq!['\\', 'b']
    } else if c == '\t' {
        seq!['\\', 't']
    } else if c == '\n' {
        seq!['\\', 'n']
    } else if c == '\x0c' {
        seq!['\\', 'f']
    } else if c == '\r' {
        seq!['\\', 'r']
    } else if (c as u32) < 32 {
        seq![
            '\\',
            'u',
            '0',
            '0',
            hex_digit((c as u32 / 16) as nat),
            hex_digit((c as u32 % 16) as nat),
        ]
    } else {
        seq![c]
    }
}

/// The characters of `s`, each escaped for a JSON string.
pub open spec fn json_escaped(s: Seq<char>) -> Seq<char>
    decreases s.len(),
{
    if s.len() == 0 {
        Seq::empty()
    } else {
        json_escaped(s.drop_last()) + json_escape(s.last())
    }
}

/// The compact JSON string literal that denotes `s`.
pub open spec fn json_string_literal(s: Seq<char>) -> Seq<char> {
    seq!['"'] + json_escaped(s) + seq!['"']
}

/// Relies on `serde_json::from_str` into a `Map<String, Value>`: it succeeds
/// exactly on the texts that `json_object_text` names, and the object it
/// gives is a function of the text; the error is rendered with its `Display`.
#[verifier::external_body]
pub(crate) fn parse_object(text: &str) -> (r: Result<JsonObject, String>)
    ensures
        r is Ok <==> json_object_text(text@),
        r matches Ok(m) ==> json_keys(m) == json_text_keys(text@),
        r matches Ok(m) ==> json_string_members(m) == json_text_strings(text@),
        r matches Ok(m) ==> json_array_lengths(m) == json_text_array_lengths(text@),
{
    match serde_json::from_str::<JsonObject>(text) {
        Ok(m) => Ok(m),
        Err(e) => Err(e.to_string()),
    }
}

/// Relies on `serde_json::Map::contains_key`.
#[verifier::external_body]
pub(crate) fn has_member(m: &JsonObject, key: &str) -> (r: bool)
    ensures
        r == json_keys(*m).contains(key@),
{
    m.contains_key(key)
}

/// Relies on `serde_json::Map::get` followed by `Value::as_str`: the member's
/// string, if the member exists and holds a string.
#[verifier::external_body]
pub(crate) fn string_member(m: &JsonObject, key: &str) -> (r: Option<String>)
    ensures
        r is Some <==> json_string_members(*m).contains_key(key@),
        r matches Some(s) ==> s@ == json_string_members(*m)[key@] && json_keys(*m).contains(
            key@,
        ),
{
    m.get(key).and_then(serde_json::Value::as_str).map(str::to_string)
}

/// Relies on `serde_json::Map::get` followed by `Value::as_array`: a copy of
/// the member's elements, if the member exists and holds an array.
#[verifier::external_body]
pub(crate) fn array_member(m: &JsonObject, key: &str) -> (r: Option<Vec<serde_json::Value>>)
    ensures
        r is Some <==> json_array_lengths(*m).contains_key(key@),
        r matches Some(v) ==> v@.len() == json_array_lengths(*m)[key@] && json_keys(
            *m,
        ).contains(key@),
{
    m.get(key).and_then(serde_json::Value::as_array).cloned()
}

/// Relies on the `Display` of `serde_json::Value::String`: the compact JSON
/// encoding of a string, escaped as `format_escaped_str` does.
#[verifier::external_body]
pub(crate) fn quote(s: &str) -> (r: String)
    ensures
        r@ == json_string_literal(s@),
{
    serde_json::Value::String(s.to_string()).to_string()
}

/// Whether an HTTP status code reports success.
pub open spec fn is_success(status: u16) -> bool {
    200 <= status < 300
}

/// How a reply is judged, given its status, its body and what decoding the
/// body gave: a failing status first, then an undecodable body, then an
/// `error` member; otherwise the decoded object is handed on.
pub open spec fn judge_reply(status: u16, body: Seq<char>, decoded: Result<JsonObject, Seq<char>>) -> Result<
    JsonObject,
    ErrorView,
> {
    if !is_success(status) {
        Err(ErrorView::HttpStatus { status, body })
    } else {
        match decoded {
            Err(m) => Err(ErrorView::MalformedJson(m)),
            Ok(obj) => if json_keys(obj).contains("error"@) {
                Err(ErrorView::ApiError { body })
            } else {
                Ok(obj)
            },
        }
    }
}

/// The decoded body as a view.
pub open spec fn decoded_view(decoded: Result<JsonObject, String>) -> Result<JsonObject, Seq<char>> {
    match decoded {
        Ok(o) => Ok(o),
        Err(m) => Err(m@),
    }
}

/// The result view of a judged reply.
pub open spec fn reply_view(r: Result<JsonObject, ServiceError>) -> Result<JsonObject, ErrorView> {
    match r {
        Ok(o) => Ok(o),
        Err(e) => Err(e@),
    }
}

/// Judges a reply from what decoding its body gave.
pub fn judge(status: u16, body: &String, decoded: Result<JsonObject, String>) -> (r: Result<
    JsonObject,
    ServiceError,
>)
    ensures
        reply_view(r) == judge_reply(status, body@, decoded_view(decoded)),
{
    if status < 200 || status >= 300 {
        return Err(ServiceError::HttpStatus { status, body: body.clone() });
    }
    match decoded {
        Err(m) => Err(ServiceError::MalformedJson(m)),
        Ok(obj) => {
            let error_key = "error";
            if has_member(&obj, error_key) {
                Err(ServiceError::ApiError { body: body.clone() })
            } else {
                Ok(obj)
            }
        },
    }
}

/// A reply that is accepted: a success status, and a body that decodes to a
/// JSON object without an `error` member.
pub open spec fn clean_reply(status: u16, body: Seq<char>) -> bool {
    is_success(status) && json_object_text(body) && !json_text_keys(body).contains("error"@)
}

/// The error of a reply that the remote side rejected: a failing status, or
/// else an `error` member in the body.
pub open spec fn protocol_rejection(status: u16, body: Seq<char>) -> ErrorView {
    if !is_success(status) {
        ErrorView::HttpStatus { status, body }
    } else {
        ErrorView::ApiError { body }
    }
}

/// Checks a reply: a failing status, a body that is not a JSON object and a
/// body with an `error` member are errors; otherwise the decoded object is
/// returned. The body is decoded only when the status reports success.
pub fn check_reply(status: u16, body: &String) -> (r: Result<JsonObject, ServiceError>)
    ensures
        r is Ok <==> clean_reply(status, body@),
        !is_success(status) || (json_object_text(body@) && json_text_keys(body@).contains(
            "error"@,
        )) ==> reply_view(r) == Err::<JsonObject, ErrorView>(protocol_rejection(status, body@)),
        is_success(status) && !json_object_text(body@) ==> r matches Err(
            ServiceError::MalformedJson(_),
        ),
        r matches Ok(m) ==> json_keys(m) == json_text_keys(body@) && json_string_members(m)
            == json_text_strings(body@) && json_array_lengths(m) == json_text_array_lengths(
            body@,
        ),
{
    if status < 200 || status >= 300 {
        return Err(ServiceError::HttpStatus { status, body: body.clone() });
    }
    let decoded = parse_object(body.as_str());
    judge(status, body, decoded)
}

} // verus!
