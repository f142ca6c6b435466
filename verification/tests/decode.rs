use yamlstar::bridge::ForeignCall;
use yamlstar::decode::{
    decode_reply, decode_response, decode_version_reply, error_record_from_parts,
    version_from_bytes, MessageField,
};
use yamlstar::Error;

#[test]
fn data_scalar_payload() {
    let payload = decode_response(br#"{"data":"hello"}"#).unwrap();
    assert_eq!(payload.as_str(), Some("hello"));
}

#[test]
fn data_object_payload() {
    let payload = decode_response(br#"{"data":{"key":"value"}}"#).unwrap();
    let object = payload.as_object().unwrap();
    assert_eq!(object.len(), 1);
    assert_eq!(object.get("key").unwrap().as_str(), Some("value"));
}

#[test]
fn data_sequence_payload() {
    let payload = decode_response(br#"{"data":["a","b","c"]}"#).unwrap();
    let items: Vec<String> = serde_json::from_value(payload).unwrap();
    assert_eq!(items, vec!["a", "b", "c"]);
}

#[test]
fn data_document_sequence_keeps_order() {
    let payload = decode_response(br#"{"data":["doc1","doc2"]}"#).unwrap();
    let docs: Vec<String> = serde_json::from_value(payload).unwrap();
    assert_eq!(docs, vec!["doc1", "doc2"]);
}

#[test]
fn error_envelope_surfaces_engine_error() {
    let reply = br#"{"error":{"cause":"bad yaml","type":"ParserException","message":"line 1"}}"#;
    match decode_response(reply) {
        Err(Error::YAMLStar(e)) => {
            assert_eq!(e.cause, "bad yaml");
            assert_eq!(e.type_, "ParserException");
            assert_eq!(e.message.as_deref(), Some("line 1"));
        },
        other => panic!("expected an engine error, got {:?}", other),
    }
}

#[test]
fn error_message_may_be_null() {
    let reply = br#"{"error":{"cause":"c","type":"t","message":null}}"#;
    match decode_response(reply) {
        Err(Error::YAMLStar(e)) => assert!(e.message.is_none()),
        other => panic!("expected an engine error, got {:?}", other),
    }
}

#[test]
fn error_message_may_be_absent() {
    let reply = br#"{"error":{"cause":"c","type":"t"}}"#;
    match decode_response(reply) {
        Err(Error::YAMLStar(e)) => assert!(e.message.is_none()),
        other => panic!("expected an engine error, got {:?}", other),
    }
}

#[test]
fn error_message_of_wrong_shape_is_a_mismatch() {
    let reply = br#"{"error":{"cause":"c","type":"t","message":7}}"#;
    assert!(matches!(decode_response(reply), Err(Error::Serde(_))));
}

#[test]
fn error_without_cause_is_a_mismatch() {
    let reply = br#"{"error":{"type":"t"}}"#;
    assert!(matches!(decode_response(reply), Err(Error::Serde(_))));
}

#[test]
fn error_with_numeric_cause_is_a_mismatch() {
    let reply = br#"{"error":{"cause":1,"type":"t"}}"#;
    assert!(matches!(decode_response(reply), Err(Error::Serde(_))));
}

#[test]
fn envelope_with_both_members_is_a_mismatch() {
    let reply = br#"{"data":1,"error":{"cause":"c","type":"t"}}"#;
    assert!(matches!(decode_response(reply), Err(Error::Serde(_))));
}

#[test]
fn envelope_with_neither_member_is_a_mismatch() {
    assert!(matches!(decode_response(br#"{"other":1}"#), Err(Error::Serde(_))));
}

#[test]
fn non_object_reply_is_a_mismatch() {
    assert!(matches!(decode_response(br#"[1,2]"#), Err(Error::Serde(_))));
}

#[test]
fn malformed_json_is_a_mismatch() {
    assert!(matches!(decode_response(b"{\"data\": \"unclosed"), Err(Error::Serde(_))));
}

#[test]
fn non_utf8_reply_is_refused() {
    assert!(matches!(decode_response(&[0xff, 0xfe, 0x01]), Err(Error::Utf8(_))));
}

#[test]
fn repeated_decodes_are_independent() {
    let first = decode_response(br#"{"data":42}"#).unwrap();
    assert_eq!(first.as_i64(), Some(42));
    let second = decode_response(br#"{"data":"hello"}"#).unwrap();
    assert_eq!(second.as_str(), Some("hello"));
    let third = decode_response(br#"{"error":{"cause":"c","type":"t"}}"#);
    assert!(matches!(third, Err(Error::YAMLStar(_))));
}

#[test]
fn record_from_full_parts() {
    let record = error_record_from_parts(
        Some("c".to_string()),
        Some("t".to_string()),
        MessageField::Text("m".to_string()),
    )
    .unwrap();
    assert_eq!(record.cause, "c");
    assert_eq!(record.type_, "t");
    assert_eq!(record.message.as_deref(), Some("m"));
}

#[test]
fn record_needs_cause_and_type() {
    assert!(matches!(
        error_record_from_parts(None, Some("t".to_string()), MessageField::Absent),
        Err(Error::Serde(_))
    ));
    assert!(matches!(
        error_record_from_parts(Some("c".to_string()), None, MessageField::Null),
        Err(Error::Serde(_))
    ));
}

#[test]
fn missing_reply_is_an_ffi_error() {
    match decode_reply(None, ForeignCall::Load) {
        Err(Error::Ffi(m)) => assert_eq!(m, "yamlstar_load: returned null"),
        other => panic!("expected an FFI error, got {:?}", other),
    }
    match decode_reply(None, ForeignCall::LoadAll) {
        Err(Error::Ffi(m)) => assert_eq!(m, "yamlstar_load_all: returned null"),
        other => panic!("expected an FFI error, got {:?}", other),
    }
}

#[test]
fn present_reply_is_decoded() {
    let payload = decode_reply(Some(br#"{"data":true}"#), ForeignCall::Load).unwrap();
    assert_eq!(payload.as_bool(), Some(true));
}

#[test]
fn missing_version_reply_is_an_ffi_error() {
    assert!(matches!(decode_version_reply(None), Err(Error::Ffi(_))));
}

#[test]
fn present_version_reply_is_decoded() {
    assert_eq!(decode_version_reply(Some(b"0.1.0-SNAPSHOT")).unwrap(), "0.1.0-SNAPSHOT");
}

#[test]
fn version_reply_is_plain_text() {
    assert_eq!(version_from_bytes(b"0.1.0").unwrap(), "0.1.0");
}

#[test]
fn version_reply_must_be_utf8() {
    assert!(matches!(version_from_bytes(&[0x80]), Err(Error::Utf8(_))));
}
