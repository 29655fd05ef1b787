use ankiconnect_mcp::json::{JsonNumber, JsonValue};
use ankiconnect_mcp::protocol::messages::{
    DecodeError, JsonRpcError, JsonRpcMessage, Notification, Request, RequestId, Response,
};

fn text(s: &str) -> JsonValue {
    JsonValue::String(s.to_string())
}

fn object(members: Vec<(&str, JsonValue)>) -> JsonValue {
    JsonValue::Object(members.into_iter().map(|(k, v)| (k.to_string(), v)).collect())
}

fn sample_messages() -> Vec<JsonRpcMessage> {
    vec![
        JsonRpcMessage::Request(Request {
            id: RequestId::Number(1),
            method: "initialize".to_string(),
            params: Some(object(vec![])),
        }),
        JsonRpcMessage::Request(Request {
            id: RequestId::String("abc-1".to_string()),
            method: "tools/list".to_string(),
            params: None,
        }),
        JsonRpcMessage::Request(Request {
            id: RequestId::Number(i64::MIN as i128),
            method: "".to_string(),
            params: Some(JsonValue::Null),
        }),
        JsonRpcMessage::Request(Request {
            id: RequestId::Number(u64::MAX as i128),
            method: "tools/call".to_string(),
            params: Some(object(vec![
                ("name", text("echo")),
                ("arguments", object(vec![("text", text("hi"))])),
            ])),
        }),
        JsonRpcMessage::Notification(Notification {
            method: "initialized".to_string(),
            params: None,
        }),
        JsonRpcMessage::Notification(Notification {
            method: "progress".to_string(),
            params: Some(JsonValue::Array(vec![JsonValue::integer(1), JsonValue::Bool(false)])),
        }),
        JsonRpcMessage::Response(Response {
            id: RequestId::Number(2),
            outcome: Ok(object(vec![("ok", JsonValue::Bool(true))])),
        }),
        JsonRpcMessage::Response(Response {
            id: RequestId::String("r".to_string()),
            outcome: Ok(JsonValue::Null),
        }),
        JsonRpcMessage::Response(Response {
            id: RequestId::Number(3),
            outcome: Err(JsonRpcError {
                code: -32601,
                message: "Method not found".to_string(),
                data: None,
            }),
        }),
        JsonRpcMessage::Response(Response {
            id: RequestId::Number(4),
            outcome: Err(JsonRpcError {
                code: i32::MIN,
                message: "".to_string(),
                data: Some(JsonValue::Number(JsonNumber::Float(7))),
            }),
        }),
    ]
}

#[test]
fn encoding_then_decoding_gives_the_envelope_back() {
    for message in sample_messages() {
        let encoded = message.encode();
        assert_eq!(JsonRpcMessage::decode(&encoded), Ok(message.clone()));
    }
}

#[test]
fn every_encoding_carries_the_version_tag() {
    for message in sample_messages() {
        let encoded = message.encode();
        assert_eq!(encoded.get("jsonrpc"), Some(&text("2.0")));
    }
}

#[test]
fn request_is_encoded_member_by_member() {
    let message = JsonRpcMessage::Request(Request {
        id: RequestId::Number(1),
        method: "initialize".to_string(),
        params: Some(object(vec![])),
    });
    assert_eq!(
        message.encode(),
        object(vec![
            ("jsonrpc", text("2.0")),
            ("id", JsonValue::integer(1)),
            ("method", text("initialize")),
            ("params", object(vec![])),
        ])
    );
}

#[test]
fn request_without_params_is_encoded_without_them() {
    let message = JsonRpcMessage::Request(Request {
        id: RequestId::String("x".to_string()),
        method: "tools/list".to_string(),
        params: None,
    });
    assert_eq!(
        message.encode(),
        object(vec![("jsonrpc", text("2.0")), ("id", text("x")), ("method", text("tools/list"))])
    );
}

#[test]
fn notification_is_encoded_without_an_id() {
    let message = JsonRpcMessage::Notification(Notification {
        method: "initialized".to_string(),
        params: None,
    });
    assert_eq!(
        message.encode(),
        object(vec![("jsonrpc", text("2.0")), ("method", text("initialized"))])
    );
}

#[test]
fn successful_response_is_encoded_with_a_result() {
    let message = JsonRpcMessage::Response(Response {
        id: RequestId::Number(9),
        outcome: Ok(text("done")),
    });
    assert_eq!(
        message.encode(),
        object(vec![
            ("jsonrpc", text("2.0")),
            ("id", JsonValue::integer(9)),
            ("result", text("done")),
        ])
    );
}

#[test]
fn failed_response_is_encoded_with_an_error_object() {
    let message = JsonRpcMessage::Response(Response {
        id: RequestId::Number(9),
        outcome: Err(JsonRpcError {
            code: -32002,
            message: "Server not initialized".to_string(),
            data: Some(text("detail")),
        }),
    });
    assert_eq!(
        message.encode(),
        object(vec![
            ("jsonrpc", text("2.0")),
            ("id", JsonValue::integer(9)),
            (
                "error",
                object(vec![
                    ("code", JsonValue::integer(-32002)),
                    ("message", text("Server not initialized")),
                    ("data", text("detail")),
                ])
            ),
        ])
    );
}

#[test]
fn error_object_without_data_is_encoded_without_it() {
    let error = JsonRpcError { code: 1, message: "m".to_string(), data: None };
    assert_eq!(
        error.to_json(),
        object(vec![("code", JsonValue::integer(1)), ("message", text("m"))])
    );
}

#[test]
fn object_with_method_and_no_id_is_a_notification() {
    let value = object(vec![
        ("jsonrpc", text("2.0")),
        ("method", text("initialized")),
        ("params", object(vec![("k", JsonValue::Null)])),
    ]);
    assert_eq!(
        JsonRpcMessage::decode(&value),
        Ok(JsonRpcMessage::Notification(Notification {
            method: "initialized".to_string(),
            params: Some(object(vec![("k", JsonValue::Null)])),
        }))
    );
}

#[test]
fn object_with_method_and_id_is_a_request() {
    let value = object(vec![
        ("method", text("tools/list")),
        ("id", text("seven")),
        ("jsonrpc", text("2.0")),
    ]);
    assert_eq!(
        JsonRpcMessage::decode(&value),
        Ok(JsonRpcMessage::Request(Request {
            id: RequestId::String("seven".to_string()),
            method: "tools/list".to_string(),
            params: None,
        }))
    );
}

#[test]
fn object_with_id_and_no_method_is_a_response() {
    let value = object(vec![
        ("jsonrpc", text("2.0")),
        ("id", JsonValue::integer(5)),
        ("result", JsonValue::Array(vec![])),
    ]);
    assert_eq!(
        JsonRpcMessage::decode(&value),
        Ok(JsonRpcMessage::Response(Response {
            id: RequestId::Number(5),
            outcome: Ok(JsonValue::Array(vec![])),
        }))
    );
}

#[test]
fn response_with_an_error_object_is_decoded() {
    let value = object(vec![
        ("jsonrpc", text("2.0")),
        ("id", JsonValue::integer(5)),
        (
            "error",
            object(vec![
                ("code", JsonValue::integer(-32603)),
                ("message", text("Internal error")),
                ("data", JsonValue::Bool(true)),
                ("extra", JsonValue::Null),
            ]),
        ),
    ]);
    assert_eq!(
        JsonRpcMessage::decode(&value),
        Ok(JsonRpcMessage::Response(Response {
            id: RequestId::Number(5),
            outcome: Err(JsonRpcError {
                code: -32603,
                message: "Internal error".to_string(),
                data: Some(JsonValue::Bool(true)),
            }),
        }))
    );
}

#[test]
fn members_that_the_envelope_does_not_name_are_ignored() {
    let value = object(vec![
        ("jsonrpc", text("2.0")),
        ("id", JsonValue::integer(1)),
        ("method", text("ping")),
        ("trace", text("t-1")),
        ("result", JsonValue::Null),
    ]);
    assert_eq!(
        JsonRpcMessage::decode(&value),
        Ok(JsonRpcMessage::Request(Request {
            id: RequestId::Number(1),
            method: "ping".to_string(),
            params: None,
        }))
    );
}

#[test]
fn params_that_are_null_are_kept_as_null() {
    let value = object(vec![
        ("jsonrpc", text("2.0")),
        ("method", text("note")),
        ("params", JsonValue::Null),
    ]);
    assert_eq!(
        JsonRpcMessage::decode(&value),
        Ok(JsonRpcMessage::Notification(Notification {
            method: "note".to_string(),
            params: Some(JsonValue::Null),
        }))
    );
}

#[test]
fn value_that_is_no_object_is_refused() {
    assert_eq!(JsonRpcMessage::decode(&JsonValue::Null), Err(DecodeError::NotAnObject));
    assert_eq!(JsonRpcMessage::decode(&text("{}")), Err(DecodeError::NotAnObject));
    assert_eq!(
        JsonRpcMessage::decode(&JsonValue::Array(vec![object(vec![])])),
        Err(DecodeError::NotAnObject)
    );
}

#[test]
fn missing_or_other_version_is_refused() {
    let missing = object(vec![("method", text("m"))]);
    assert_eq!(JsonRpcMessage::decode(&missing), Err(DecodeError::InvalidVersion));
    let other = object(vec![("jsonrpc", text("1.0")), ("method", text("m"))]);
    assert_eq!(JsonRpcMessage::decode(&other), Err(DecodeError::InvalidVersion));
    let number = object(vec![("jsonrpc", JsonValue::integer(2)), ("method", text("m"))]);
    assert_eq!(JsonRpcMessage::decode(&number), Err(DecodeError::InvalidVersion));
    assert_eq!(JsonRpcMessage::decode(&object(vec![])), Err(DecodeError::InvalidVersion));
}

#[test]
fn method_that_is_no_string_is_refused() {
    let value = object(vec![
        ("jsonrpc", text("2.0")),
        ("id", JsonValue::integer(1)),
        ("method", JsonValue::integer(3)),
    ]);
    assert_eq!(JsonRpcMessage::decode(&value), Err(DecodeError::InvalidMethod));
    let without_id = object(vec![("jsonrpc", text("2.0")), ("method", JsonValue::Null)]);
    assert_eq!(JsonRpcMessage::decode(&without_id), Err(DecodeError::InvalidMethod));
}

#[test]
fn id_of_another_kind_is_refused() {
    for id in [
        JsonValue::Null,
        JsonValue::Bool(true),
        JsonValue::Number(JsonNumber::Float(0x3ff8_0000_0000_0000)),
        JsonValue::Array(vec![]),
        object(vec![]),
    ] {
        let request =
            object(vec![("jsonrpc", text("2.0")), ("id", id.clone()), ("method", text("m"))]);
        assert_eq!(JsonRpcMessage::decode(&request), Err(DecodeError::InvalidId));
        let response =
            object(vec![("jsonrpc", text("2.0")), ("id", id), ("result", JsonValue::Null)]);
        assert_eq!(JsonRpcMessage::decode(&response), Err(DecodeError::InvalidId));
    }
}

#[test]
fn object_without_method_and_id_is_refused() {
    let value = object(vec![("jsonrpc", text("2.0")), ("result", JsonValue::Null)]);
    assert_eq!(JsonRpcMessage::decode(&value), Err(DecodeError::Unrecognized));
}

#[test]
fn response_needs_exactly_one_of_result_and_error() {
    let neither = object(vec![("jsonrpc", text("2.0")), ("id", JsonValue::integer(1))]);
    assert_eq!(JsonRpcMessage::decode(&neither), Err(DecodeError::InvalidOutcome));
    let both = object(vec![
        ("jsonrpc", text("2.0")),
        ("id", JsonValue::integer(1)),
        ("result", JsonValue::Null),
        ("error", object(vec![("code", JsonValue::integer(1)), ("message", text("m"))])),
    ]);
    assert_eq!(JsonRpcMessage::decode(&both), Err(DecodeError::InvalidOutcome));
}

#[test]
fn error_of_another_shape_is_refused() {
    for error in [
        JsonValue::Null,
        text("boom"),
        object(vec![("code", JsonValue::integer(1))]),
        object(vec![("message", text("m"))]),
        object(vec![("code", text("1")), ("message", text("m"))]),
        object(vec![("code", JsonValue::integer(1)), ("message", JsonValue::integer(2))]),
        object(vec![("code", JsonValue::integer(i32::MAX as i128 + 1)), ("message", text("m"))]),
        object(vec![("code", JsonValue::integer(i32::MIN as i128 - 1)), ("message", text("m"))]),
    ] {
        let value =
            object(vec![("jsonrpc", text("2.0")), ("id", JsonValue::integer(1)), ("error", error)]);
        assert_eq!(JsonRpcMessage::decode(&value), Err(DecodeError::InvalidError));
    }
}

#[test]
fn identifiers_are_read_and_written_alike() {
    assert_eq!(RequestId::Number(-3).to_json(), JsonValue::integer(-3));
    assert_eq!(RequestId::String("id".to_string()).to_json(), text("id"));
    assert_eq!(RequestId::from_json(&JsonValue::integer(-3)), Some(RequestId::Number(-3)));
    assert_eq!(RequestId::from_json(&text("id")), Some(RequestId::String("id".to_string())));
    assert_eq!(RequestId::from_json(&JsonValue::Null), None);
}

#[test]
fn decode_errors_describe_themselves() {
    assert_eq!(DecodeError::NotAnObject.describe(), "message is not an object");
    assert_eq!(
        DecodeError::InvalidVersion.describe(),
        "member `jsonrpc` is missing or is not \"2.0\""
    );
    assert_eq!(DecodeError::InvalidMethod.describe(), "member `method` is not a string");
    assert_eq!(
        DecodeError::InvalidId.describe(),
        "member `id` is neither a string nor an integer"
    );
    assert_eq!(DecodeError::Unrecognized.describe(), "message has neither `method` nor `id`");
    assert_eq!(
        DecodeError::InvalidOutcome.describe(),
        "response must have exactly one of `result` and `error`"
    );
    assert_eq!(DecodeError::InvalidError.describe(), "member `error` is not an error object");
}
