//! Interpretation of what the foreign calls return.
//!
//! Every content-bearing reply is a JSON envelope with exactly one of two
//! members: `data`, carrying the decoded document(s), or `error`, carrying a
//! structured record from the engine. The version call returns a plain
//! string. The bytes come from the foreign side, so nothing about them is
//! taken for granted: they are checked as UTF-8, parsed as JSON, and the
//! envelope's shape is examined member by member.

use vstd::prelude::*;
use vstd::string::*;
use vstd::utf8::decode_utf8;
use vstd::utf8::valid_utf8;

use crate::bridge::null_reply_error;
use crate::bridge::null_reply_msg_spec;
use crate::bridge::ForeignCall;
use crate::error::Error;
use crate::error::LibYSError;

verus! {

#[verifier::external_type_specification]
#[verifier::external_body]
pub struct ExValue(serde_json::Value);

/// Names the set of texts serde_json's parser accepts as a JSON document;
/// whether a parse succeeds is a function of the text alone.
pub uninterp spec fn json_wellformed(s: Seq<char>) -> bool;

/// Names the value serde_json's parser gives a well-formed text; the parse
/// is a function of the text alone.
pub uninterp spec fn parse_of(s: Seq<char>) -> serde_json::Value;

/// Names the member lookup of serde_json::Value::get: the member under the
/// key when the value is an object holding one, None otherwise; a function
/// of the value and the key alone.
pub uninterp spec fn member_of(v: serde_json::Value, key: Seq<char>) -> Option<serde_json::Value>;

/// Names the text of serde_json::Value::as_str: Some exactly when the value
/// is a JSON string; a function of the value alone.
pub uninterp spec fn text_of(v: serde_json::Value) -> Option<Seq<char>>;

/// Names serde_json::Value::is_null: whether the value is JSON null; a
/// function of the value alone.
pub uninterp spec fn is_null_value(v: serde_json::Value) -> bool;

/// Relies on core::str::from_utf8: succeeds exactly on valid UTF-8 input and
/// returns the string those bytes encode.
#[verifier::external_body]
fn utf8_decode<'a>(bytes: &'a [u8]) -> (r: Result<&'a str, String>)
    ensures
        r is Ok <==> valid_utf8(bytes@),
        r matches Ok(s) ==> s@ == decode_utf8(bytes@),
{
    core::str::from_utf8(bytes).map_err(|e| e.to_string())
}

/// Relies on serde_json::from_str::<Value>: parses a text into a JSON value
/// tree, succeeding exactly on well-formed JSON.
#[verifier::external_body]
fn json_parse(s: &str) -> (r: Result<serde_json::Value, String>)
    ensures
        r is Ok <==> json_wellformed(s@),
        r matches Ok(v) ==> v == parse_of(s@),
{
    serde_json::from_str::<serde_json::Value>(s).map_err(|e| e.to_string())
}

/// Relies on serde_json::Value::get: looks a member up by name, None when the
/// value is not an object or has no such member.
#[verifier::external_body]
fn json_get<'a>(v: &'a serde_json::Value, key: &str) -> (r: Option<&'a serde_json::Value>)
    ensures
        r matches Some(m) ==> member_of(*v, key@) == Some(*m),
        r is None ==> member_of(*v, key@) is None,
{
    v.get(key)
}

/// Relies on serde_json::Value::clone (the derived Clone): hands back an
/// owned copy, equal to the value it was made from.
#[verifier::external_body]
fn json_clone(v: &serde_json::Value) -> (r: serde_json::Value)
    ensures
        r == *v,
{
    v.clone()
}

/// Relies on serde_json::Value::as_str: Some exactly when the value is a JSON
/// string, carrying its text.
#[verifier::external_body]
fn json_as_str(v: &serde_json::Value) -> (r: Option<String>)
    ensures
        r matches Some(s) ==> text_of(*v) == Some(s@),
        r is None ==> text_of(*v) is None,
{
    v.as_str().map(str::to_string)
}

/// Relies on serde_json::Value::is_null: whether the value is JSON null.
#[verifier::external_body]
fn json_is_null(v: &serde_json::Value) -> (r: bool)
    ensures
        r == is_null_value(*v),
{
    v.is_null()
}

/// The success payload of a parsed envelope: the `data` member, present
/// exactly when `data` is there and `error` is not.
pub open spec fn data_payload_of(v: serde_json::Value) -> Option<serde_json::Value> {
    if member_of(v, "data"@) is Some && member_of(v, "error"@) is None {
        member_of(v, "data"@)
    } else {
        None
    }
}

/// The `cause` member of an error record, when it is a string.
pub open spec fn record_cause(e: serde_json::Value) -> Option<Seq<char>> {
    match member_of(e, "cause"@) {
        Some(c) => text_of(c),
        None => None,
    }
}

/// The `type` member of an error record, when it is a string.
pub open spec fn record_type(e: serde_json::Value) -> Option<Seq<char>> {
    match member_of(e, "type"@) {
        Some(t) => text_of(t),
        None => None,
    }
}

/// Whether an error record's `message` member has an acceptable shape:
/// absent, null, or a string.
pub open spec fn record_message_ok(e: serde_json::Value) -> bool {
    match member_of(e, "message"@) {
        Some(m) => is_null_value(m) || text_of(m) is Some,
        None => true,
    }
}

/// The text of an error record's `message` member, when it has one.
pub open spec fn record_message_text(e: serde_json::Value) -> Option<Seq<char>> {
    match member_of(e, "message"@) {
        Some(m) => if is_null_value(m) {
            None
        } else {
            text_of(m)
        },
        None => None,
    }
}

/// The engine's error report carried by a parsed envelope, as cause, type
/// and optional message text: present exactly when the envelope holds an
/// `error` member and no `data` member, and the record is well shaped.
pub open spec fn engine_error_of(v: serde_json::Value) -> Option<
    (Seq<char>, Seq<char>, Option<Seq<char>>),
> {
    match member_of(v, "error"@) {
        Some(e) => if member_of(v, "data"@) is None && record_cause(e) is Some && record_type(e)
            is Some && record_message_ok(e) {
            Some((record_cause(e)->0, record_type(e)->0, record_message_text(e)))
        } else {
            None
        },
        None => None,
    }
}

/// Whether a decode result surfaces the engine's error record with exactly
/// the given cause, type and optional message.
pub open spec fn engine_error_matches(
    r: Result<serde_json::Value, Error>,
    t: (Seq<char>, Seq<char>, Option<Seq<char>>),
) -> bool {
    match r {
        Err(Error::YAMLStar(rec)) => {
            &&& rec.cause@ == t.0
            &&& rec.type_@ == t.1
            &&& (match t.2 {
                Some(m) => rec.message matches Some(s) && s@ == m,
                None => rec.message is None,
            })
        },
        _ => false,
    }
}

/// Everything decoding a content-bearing reply promises of its result, over
/// the reply's bytes: success exactly on a valid-UTF-8, well-formed-JSON,
/// proper `data` envelope, handing back exactly the `data` member; a proper
/// `error` envelope surfaces exactly the engine's record; each other failure
/// carries the error the failing stage calls for.
pub open spec fn response_decision(bytes: Seq<u8>, r: Result<serde_json::Value, Error>) -> bool {
    &&& (!valid_utf8(bytes) ==> (r matches Err(e) && e is Utf8))
    &&& (valid_utf8(bytes) && !json_wellformed(decode_utf8(bytes)) ==> (r matches Err(e) && e
        is Serde))
    &&& (r is Ok <==> (valid_utf8(bytes) && json_wellformed(decode_utf8(bytes)) && data_payload_of(
        parse_of(decode_utf8(bytes)),
    ) is Some))
    &&& (r matches Ok(p) ==> Some(p) == data_payload_of(parse_of(decode_utf8(bytes))))
    &&& (valid_utf8(bytes) && json_wellformed(decode_utf8(bytes)) ==> (engine_error_of(
        parse_of(decode_utf8(bytes)),
    ) matches Some(t) ==> engine_error_matches(r, t)))
    &&& (r matches Err(e) ==> (e is Utf8 || e is Serde || e is YAMLStar))
}

/// The message member of the engine's error record, as found in the
/// envelope: it may be absent, JSON null, a string, or (against the engine's
/// contract) something else.
pub enum MessageField {
    /// No `message` member at all.
    Absent,
    /// `message` is JSON null.
    Null,
    /// `message` is a string.
    Text(String),
    /// `message` is present but neither null nor a string.
    Other,
}

/// Builds the engine's structured error from the members found in its error
/// record: `cause` and `type` must both be strings, and `message`, when
/// present, must be a string or null; anything else is a shape mismatch.
pub fn error_record_from_parts(
    cause: Option<String>,
    type_tag: Option<String>,
    message: MessageField,
) -> (r: Result<LibYSError, Error>)
    ensures
        r is Ok <==> (cause is Some && type_tag is Some && !(message is Other)),
        r matches Ok(rec) ==> {
            &&& rec.cause == cause->0
            &&& rec.type_ == type_tag->0
            &&& rec.message == (match message {
                MessageField::Text(s) => Some(s),
                _ => None::<String>,
            })
        },
        r matches Err(e) ==> e is Serde,
{
    let c: String = match cause {
        Some(c) => c,
        None => {
            return Err(Error::Serde("error record: 'cause' is missing or not a string".to_owned()));
        },
    };
    let t: String = match type_tag {
        Some(t) => t,
        None => {
            return Err(Error::Serde("error record: 'type' is missing or not a string".to_owned()));
        },
    };
    let m: Option<String> = match message {
        MessageField::Absent => None,
        MessageField::Null => None,
        MessageField::Text(s) => Some(s),
        MessageField::Other => {
            return Err(Error::Serde("error record: 'message' is neither a string nor null".to_owned()));
        },
    };
    Ok(LibYSError { cause: c, type_: t, message: m })
}

/// Reads the engine's error record out of the envelope's `error` member.
fn read_error_record(e: &serde_json::Value) -> (r: Result<LibYSError, Error>)
    ensures
        r is Ok <==> (record_cause(*e) is Some && record_type(*e) is Some && record_message_ok(*e)),
        r matches Ok(rec) ==> {
            &&& rec.cause@ == record_cause(*e)->0
            &&& rec.type_@ == record_type(*e)->0
            &&& (match record_message_text(*e) {
                Some(t) => rec.message matches Some(m) && m@ == t,
                None => rec.message is None,
            })
        },
        r matches Err(err) ==> err is Serde,
{
    let cause: Option<String> = match json_get(e, "cause") {
        Some(c) => json_as_str(c),
        None => None,
    };
    let type_tag: Option<String> = match json_get(e, "type") {
        Some(t) => json_as_str(t),
        None => None,
    };
    let message: MessageField = match json_get(e, "message") {
        None => MessageField::Absent,
        Some(m) => {
            if json_is_null(m) {
                MessageField::Null
            } else {
                match json_as_str(m) {
                    Some(s) => MessageField::Text(s),
                    None => MessageField::Other,
                }
            }
        },
    };
    error_record_from_parts(cause, type_tag, message)
}

/// Splits a parsed reply envelope: a `data` member alone is the success
/// payload, handed back exactly; an `error` member alone is the engine's own
/// report, surfaced as the engine-error variant carrying exactly the
/// record's members; any other shape is a mismatch with the envelope
/// contract.
pub fn decode_envelope(v: &serde_json::Value) -> (r: Result<serde_json::Value, Error>)
    ensures
        r is Ok <==> data_payload_of(*v) is Some,
        r matches Ok(p) ==> Some(p) == data_payload_of(*v),
        engine_error_of(*v) matches Some(t) ==> engine_error_matches(r, t),
        (data_payload_of(*v) is None && engine_error_of(*v) is None) ==> (r matches Err(e) && e
            is Serde),
        r matches Err(e) ==> (e is YAMLStar || e is Serde),
{
    let data = json_get(v, "data");
    let error = json_get(v, "error");
    match (data, error) {
        (Some(payload), None) => Ok(json_clone(payload)),
        (None, Some(record)) => match read_error_record(record) {
            Ok(rec) => Err(Error::YAMLStar(rec)),
            Err(e) => Err(e),
        },
        _ => Err(
            Error::Serde("response envelope must hold exactly one of 'data' or 'error'".to_owned()),
        ),
    }
}

/// Decodes the full reply of a content-bearing foreign call: the bytes must
/// be UTF-8, the text well-formed JSON, and the value a proper envelope; the
/// result is exactly the `data` payload, the engine's own error, or the
/// error the stage that failed calls for.
pub fn decode_response(bytes: &[u8]) -> (r: Result<serde_json::Value, Error>)
    ensures
        response_decision(bytes@, r),
{
    let text: &str = match utf8_decode(bytes) {
        Ok(t) => t,
        Err(m) => {
            return Err(Error::Utf8(m));
        },
    };
    let parsed: serde_json::Value = match json_parse(text) {
        Ok(v) => v,
        Err(m) => {
            return Err(Error::Serde(m));
        },
    };
    decode_envelope(&parsed)
}

/// Decision over a content-bearing foreign call's reply as a whole: no reply
/// at all (the call returned a null pointer) is an FFI-contract error naming
/// the call; otherwise the reply bytes are decoded as the envelope.
pub fn decode_reply(reply: Option<&[u8]>, call: ForeignCall) -> (r: Result<
    serde_json::Value,
    Error,
>)
    ensures
        reply is None ==> (r matches Err(e) && e matches Error::Ffi(m) && m@
            == null_reply_msg_spec(call)),
        reply matches Some(bytes) ==> response_decision(bytes@, r),
{
    match reply {
        None => Err(null_reply_error(call)),
        Some(bytes) => decode_response(bytes),
    }
}

/// Decision over the version call's reply as a whole: no reply is an
/// FFI-contract error naming the version call; otherwise only the UTF-8
/// check applies.
pub fn decode_version_reply(reply: Option<&[u8]>) -> (r: Result<String, Error>)
    ensures
        reply is None ==> (r matches Err(e) && e matches Error::Ffi(m) && m@
            == null_reply_msg_spec(ForeignCall::Version)),
        reply matches Some(bytes) ==> (r is Ok <==> valid_utf8(bytes@)),
        reply matches Some(bytes) ==> (r matches Ok(s) ==> s@ == decode_utf8(bytes@)),
        r matches Err(e) ==> (e is Ffi || e is Utf8),
{
    match reply {
        None => Err(null_reply_error(ForeignCall::Version)),
        Some(bytes) => version_from_bytes(bytes),
    }
}

/// Decodes the version call's reply, which is a plain string rather than an
/// envelope: only the UTF-8 check applies, and the text comes back verbatim.
pub fn version_from_bytes(bytes: &[u8]) -> (r: Result<String, Error>)
    ensures
        r is Ok <==> valid_utf8(bytes@),
        r matches Ok(s) ==> s@ == decode_utf8(bytes@),
        r matches Err(e) ==> e is Utf8,
{
    match utf8_decode(bytes) {
        Ok(s) => Ok(s.to_owned()),
        Err(m) => Err(Error::Utf8(m)),
    }
}

} // verus!
