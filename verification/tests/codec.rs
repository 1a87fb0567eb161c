use runtime_v2::actor::Event;
use runtime_v2::envelope::{http_request_record, http_response_from};
use runtime_v2::error::ActorError;
use runtime_v2::http::HttpHandler;
use runtime_v2::json::{decode, encode};
use runtime_v2::wasm::{
    decode_handled, decode_http, decode_state, handled, settle_call, CallArgs, ExportCall,
    WasmActor,
};
use serde_json::Value;

fn value(text: &str) -> Value {
    serde_json::from_str(text).unwrap()
}

fn round_trip(text: &str) {
    let given = value(text);
    let bytes = encode(&given).unwrap();
    let back = decode(&bytes).unwrap();
    assert_eq!(back, given, "{text}");
}

#[test]
fn encoding_then_decoding_gives_the_value_back() {
    round_trip("null");
    round_trip("true");
    round_trip("false");
    round_trip("0");
    round_trip("18446744073709551615");
    round_trip("-9223372036854775808");
    round_trip("-1");
    round_trip("1.5");
    round_trip("-0.25");
    round_trip("1e300");
    round_trip(r#""""#);
    round_trip(r#""a string with \"quotes\", \\ and \n""#);
    round_trip(r#""ünïcödé ☃ 𝄞""#);
    round_trip("[]");
    round_trip("[1, \"two\", null, [3, [4]], {\"five\": 5}]");
    round_trip("{}");
    round_trip(r#"{"count": 0}"#);
    round_trip(r#"{"a": {"b": {"c": [true, false, null, {"d": "e"}]}}, "z": [], "y": {}}"#);
}

#[test]
fn encoding_prints_compact_json() {
    assert_eq!(encode(&value(r#"{ "count" : 1 }"#)).unwrap(), br#"{"count":1}"#.to_vec());
    assert_eq!(encode(&Value::Null).unwrap(), b"null".to_vec());
    assert_eq!(encode(&value("[1, 2]")).unwrap(), b"[1,2]".to_vec());
}

#[test]
fn decoding_refuses_what_is_no_structured_value() {
    assert_eq!(decode(b""), Err(ActorError::DecodeError));
    assert_eq!(decode(b"{"), Err(ActorError::DecodeError));
    assert_eq!(decode(b"{\"a\": }"), Err(ActorError::DecodeError));
    assert_eq!(decode(b"nul"), Err(ActorError::DecodeError));
    assert_eq!(decode(b"1 2"), Err(ActorError::DecodeError));
    assert_eq!(decode(&[0xff, 0xfe]), Err(ActorError::DecodeError));
    assert_eq!(decode(b" {\"a\": 1} ").unwrap(), value(r#"{"a":1}"#));
}

#[test]
fn decode_state_keeps_failures_and_decodes_bytes() {
    assert_eq!(decode_state(Err(ActorError::Trap)), Err(ActorError::Trap));
    assert_eq!(decode_state(Err(ActorError::ExportNotFound)), Err(ActorError::ExportNotFound));
    assert_eq!(decode_state(Ok(b"not json".to_vec())), Err(ActorError::DecodeError));
    assert_eq!(decode_state(Ok(br#"{"count": 0}"#.to_vec())), Ok(value(r#"{"count":0}"#)));
}

#[test]
fn handled_value_is_output_and_new_state() {
    let (output, state) = handled(value(r#"{"count": 1}"#));
    assert_eq!(output, value(r#"{"count": 1}"#));
    assert_eq!(state, value(r#"{"count": 1}"#));
    assert_eq!(
        decode_handled(Ok(br#"{"count": 2}"#.to_vec())),
        Ok((value(r#"{"count": 2}"#), value(r#"{"count": 2}"#)))
    );
    assert_eq!(decode_handled(Err(ActorError::Trap)), Err(ActorError::Trap));
    assert_eq!(decode_handled(Ok(b"]".to_vec())), Err(ActorError::DecodeError));
}

#[test]
fn request_record_has_method_uri_headers_and_body() {
    let record = http_request_record(
        "POST".to_string(),
        "/items?x=1".to_string(),
        &vec![
            ("content-type".to_string(), "text/plain".to_string()),
            ("x-empty".to_string(), String::new()),
        ],
        &Some(vec![104, 105, 0, 255]),
    );
    assert_eq!(
        record,
        value(
            r#"{"method": "POST", "uri": "/items?x=1",
                "headers": {"fields": [["content-type", "text/plain"], ["x-empty", ""]]},
                "body": [104, 105, 0, 255]}"#
        )
    );
}

#[test]
fn request_record_without_body_has_null_body() {
    let record = http_request_record("GET".to_string(), "/".to_string(), &vec![], &None);
    assert_eq!(
        record,
        value(r#"{"method": "GET", "uri": "/", "headers": {"fields": []}, "body": null}"#)
    );
    let empty = http_request_record("GET".to_string(), "/".to_string(), &vec![], &Some(vec![]));
    assert_eq!(empty["body"], value("[]"));
}

#[test]
fn response_envelope_is_taken_apart() {
    let envelope = value(
        r#"{"state": {"count": 3},
            "response": {"status": 201,
                         "headers": {"fields": [["content-type", "text/plain"], ["x-a", "b"]]},
                         "body": [111, 107]}}"#,
    );
    let (status, headers, body, state) = http_response_from(&envelope);
    assert_eq!(status, 201);
    assert_eq!(
        headers,
        vec![
            ("content-type".to_string(), "text/plain".to_string()),
            ("x-a".to_string(), "b".to_string())
        ]
    );
    assert_eq!(body, Some(vec![111, 107]));
    assert_eq!(state, value(r#"{"count": 3}"#));
}

#[test]
fn response_envelope_without_members_gives_defaults() {
    for text in ["{}", "null", "[]", "7", r#"{"response": null}"#, r#"{"response": {}}"#] {
        let (status, headers, body, state) = http_response_from(&value(text));
        assert_eq!(status, 500, "{text}");
        assert!(headers.is_empty(), "{text}");
        assert_eq!(body, None, "{text}");
        assert_eq!(state, Value::Null, "{text}");
    }
}

#[test]
fn response_status_is_cut_to_sixteen_bits() {
    let status = |text: &str| http_response_from(&value(text)).0;
    assert_eq!(status(r#"{"response": {"status": 0}}"#), 0);
    assert_eq!(status(r#"{"response": {"status": 65535}}"#), 65535);
    assert_eq!(status(r#"{"response": {"status": 65536}}"#), 0);
    assert_eq!(status(r#"{"response": {"status": 65736}}"#), 200);
    assert_eq!(status(r#"{"response": {"status": 18446744073709551615}}"#), 65535);
    assert_eq!(status(r#"{"response": {"status": -1}}"#), 500);
    assert_eq!(status(r#"{"response": {"status": 200.0}}"#), 500);
    assert_eq!(status(r#"{"response": {"status": "200"}}"#), 500);
}

#[test]
fn response_headers_leave_out_what_is_no_pair_of_strings() {
    let envelope = value(
        r#"{"response": {"headers": {"fields": [
            ["a", "1"], "not a pair", ["only-name"], [], ["b", 2], [3, "c"],
            ["d", "4", "extra"], null, {"e": "5"}, ["f", "6"]]}}}"#,
    );
    let (_, headers, _, _) = http_response_from(&envelope);
    assert_eq!(
        headers,
        vec![
            ("a".to_string(), "1".to_string()),
            ("d".to_string(), "4".to_string()),
            ("f".to_string(), "6".to_string())
        ]
    );
    let no_array = value(r#"{"response": {"headers": {"fields": {"a": "1"}}}}"#);
    assert!(http_response_from(&no_array).1.is_empty());
    let no_fields = value(r#"{"response": {"headers": [["a", "1"]]}}"#);
    assert!(http_response_from(&no_fields).1.is_empty());
}

#[test]
fn response_body_items_are_cut_to_bytes() {
    let envelope = value(r#"{"response": {"body": [0, 255, 256, 511, -1, 1.5, "x", null, 65]}}"#);
    let (_, _, body, _) = http_response_from(&envelope);
    assert_eq!(body, Some(vec![0, 255, 0, 255, 0, 0, 0, 0, 65]));
    assert_eq!(http_response_from(&value(r#"{"response": {"body": []}}"#)).2, Some(vec![]));
    assert_eq!(http_response_from(&value(r#"{"response": {"body": "ok"}}"#)).2, None);
    assert_eq!(http_response_from(&value(r#"{"response": {"body": null}}"#)).2, None);
}

#[test]
fn decode_http_decodes_the_envelope_or_keeps_the_failure() {
    let raw = br#"{"state": 1, "response": {"status": 204, "body": null}}"#.to_vec();
    assert_eq!(decode_http(Ok(raw)), Ok((204, vec![], None, value("1"))));
    assert_eq!(decode_http(Ok(b"<html>".to_vec())), Err(ActorError::DecodeError));
    assert_eq!(decode_http(Err(ActorError::Trap)), Err(ActorError::Trap));
    assert_eq!(
        decode_http(Err(ActorError::SignatureMismatch)),
        Err(ActorError::SignatureMismatch)
    );
}

#[test]
fn noop_event_has_type_noop_and_null_data() {
    let event = Event::noop();
    assert_eq!(event.type_, "noop");
    assert_eq!(event.data, Value::Null);
}

#[test]
fn cloned_event_holds_the_same_type_and_data() {
    let event = Event { type_: "x".to_string(), data: value(r#"{"a": [1, {"b": null}]}"#) };
    let copy = event.clone();
    assert_eq!(copy.type_, "x");
    assert_eq!(copy.data, value(r#"{"a": [1, {"b": null}]}"#));
    assert_eq!(event.data, copy.data);
}

#[test]
fn handler_reads_its_port_from_a_configuration() {
    assert_eq!(HttpHandler::from_config(&value(r#"{"port": 8080}"#)).unwrap().port(), 8080);
    assert_eq!(HttpHandler::from_config(&value(r#"{"port": 65536}"#)).unwrap().port(), 0);
    assert_eq!(HttpHandler::from_config(&value(r#"{"port": 65537}"#)).unwrap().port(), 1);
    assert!(HttpHandler::from_config(&value(r#"{"port": "8080"}"#)).is_none());
    assert!(HttpHandler::from_config(&value(r#"{"port": -1}"#)).is_none());
    assert!(HttpHandler::from_config(&value(r#"{}"#)).is_none());
    assert!(HttpHandler::from_config(&value(r#"[8080]"#)).is_none());
}

#[test]
fn every_error_has_its_own_description() {
    let all = [
        ActorError::SandboxLoadError,
        ActorError::ExportNotFound,
        ActorError::SignatureMismatch,
        ActorError::Trap,
        ActorError::DecodeError,
        ActorError::EncodeError,
        ActorError::UnsupportedCapability,
    ];
    for (i, a) in all.iter().enumerate() {
        assert!(!a.describe().is_empty());
        for b in &all[i + 1..] {
            assert_ne!(a.describe(), b.describe());
        }
    }
    assert_eq!(ActorError::UnsupportedCapability.describe(), "actor does not support HTTP");
    assert_eq!(ActorError::Trap.describe(), "sandbox trapped");
}

#[test]
fn refused_payload_turns_a_trap_into_decode_error() {
    assert_eq!(settle_call(Err(ActorError::Trap), true), Err(ActorError::DecodeError));
    assert_eq!(settle_call(Err(ActorError::Trap), false), Err(ActorError::Trap));
    assert_eq!(
        settle_call(Err(ActorError::ExportNotFound), true),
        Err(ActorError::ExportNotFound)
    );
    assert_eq!(settle_call(Ok(vec![1, 2]), true), Ok(vec![1, 2]));
    assert_eq!(settle_call(Ok(vec![]), false), Ok(vec![]));
}

#[test]
fn calls_name_their_interface_export_and_arguments() {
    let init = ExportCall::init();
    assert_eq!(init.export, "init");
    assert!(matches!(init.arguments, CallArgs::Nullary));
    let args = WasmActor::handle_arguments(&value(r#"{"op": "inc"}"#), &value("[1, 2]")).unwrap();
    let handle = ExportCall::handle(args);
    assert_eq!(handle.export, "handle");
    match handle.arguments {
        CallArgs::Binary(msg, state) => {
            assert_eq!(msg, br#"{"op":"inc"}"#.to_vec());
            assert_eq!(state, b"[1,2]".to_vec());
        }
        CallArgs::Nullary => panic!("no arguments"),
    }
    let args = WasmActor::http_arguments(
        "GET".to_string(),
        "/".to_string(),
        &vec![("a".to_string(), "b".to_string())],
        &None,
        &value("null"),
    )
    .unwrap();
    let http = ExportCall::handle_http(args);
    assert_eq!(http.export, "handle-http");
    match http.arguments {
        CallArgs::Binary(request, state) => {
            assert_eq!(
                value(std::str::from_utf8(&request).unwrap()),
                value(r#"{"method":"GET","uri":"/","headers":{"fields":[["a","b"]]},"body":null}"#)
            );
            assert_eq!(state, b"null".to_vec());
        }
        CallArgs::Nullary => panic!("no arguments"),
    }
}

fn nested(levels: usize) -> Value {
    let mut value = Value::from(1u64);
    for level in 0..levels {
        value = if level % 2 == 0 {
            Value::Array(vec![value])
        } else {
            let mut fields = serde_json::Map::new();
            fields.insert("k".to_string(), value);
            Value::Object(fields)
        };
    }
    value
}

#[test]
fn values_without_fractions_come_back_up_to_the_nesting_limit() {
    for levels in [0, 1, 2, 64, 126, 127] {
        let given = nested(levels);
        let bytes = encode(&given).unwrap();
        assert_eq!(decode(&bytes), Ok(given), "{levels}");
    }
    let too_deep = nested(128);
    let bytes = encode(&too_deep).unwrap();
    assert_eq!(decode(&bytes), Err(ActorError::DecodeError));
    let extremes = value(
        r#"{"": [18446744073709551615, -9223372036854775808, 0, -1],
            "\u0000\u001f\"\\/": "𝄞 \u007f", "a": {"b": [null, true, false, ""]}}"#,
    );
    let bytes = encode(&extremes).unwrap();
    assert_eq!(decode(&bytes), Ok(extremes));
}
