//! The envelope: the one unit of the protocol that crosses the wire.
//!
//! An envelope is a request, a notification or a response.  [`JsonRpcMessage::decode`]
//! reads one from a JSON value and [`JsonRpcMessage::encode`] writes one; the
//! two are inverse to each other on every envelope.

use crate::json::{
    lemma_lookup_empty, lemma_lookup_push, no_members, put, put_opt, with_opt,
    JsonNumber, JsonValue, JsonView, Members,
};
use crate::protocol::errors::{opt_view, ErrorView};
use crate::text::same_text;
use vstd::prelude::*;

verus! {

/// The identifier of a request: chosen by the caller and echoed verbatim.
#[derive(Debug, PartialEq, Eq)]
pub enum RequestId {
    Number(i128),
    String(String),
}

/// The mathematical value of a [`RequestId`].
pub enum IdView {
    Number(i128),
    String(Seq<char>),
}

impl View for RequestId {
    type V = IdView;

    open spec fn view(&self) -> IdView {
        match self {
            RequestId::Number(n) => IdView::Number(*n),
            RequestId::String(s) => IdView::String(s@),
        }
    }
}

impl Clone for RequestId {
    fn clone(&self) -> (r: RequestId)
        ensures
            r@ == self@,
    {
        match self {
            RequestId::Number(n) => RequestId::Number(*n),
            RequestId::String(s) => RequestId::String(s.clone()),
        }
    }
}

/// The error object of a failed response.
#[derive(Debug, PartialEq, Eq)]
pub struct JsonRpcError {
    pub code: i32,
    pub message: String,
    pub data: Option<JsonValue>,
}

impl View for JsonRpcError {
    type V = ErrorView;

    open spec fn view(&self) -> ErrorView {
        ErrorView { code: self.code, message: self.message@, data: opt_view(self.data) }
    }
}

impl Clone for JsonRpcError {
    fn clone(&self) -> (r: JsonRpcError)
        ensures
            r@ == self@,
    {
        JsonRpcError {
            code: self.code,
            message: self.message.clone(),
            data: clone_payload(self.data.as_ref()),
        }
    }
}

/// A call that expects exactly one response.
#[derive(Debug, PartialEq, Eq)]
pub struct Request {
    pub id: RequestId,
    pub method: String,
    pub params: Option<JsonValue>,
}

/// The mathematical value of a [`Request`].
pub struct RequestView {
    pub id: IdView,
    pub method: Seq<char>,
    pub params: Option<JsonView>,
}

impl View for Request {
    type V = RequestView;

    open spec fn view(&self) -> RequestView {
        RequestView { id: self.id@, method: self.method@, params: opt_view(self.params) }
    }
}

impl Clone for Request {
    fn clone(&self) -> (r: Request)
        ensures
            r@ == self@,
    {
        Request {
            id: self.id.clone(),
            method: self.method.clone(),
            params: clone_payload(self.params.as_ref()),
        }
    }
}

/// A call that expects no response.
#[derive(Debug, PartialEq, Eq)]
pub struct Notification {
    pub method: String,
    pub params: Option<JsonValue>,
}

/// The mathematical value of a [`Notification`].
pub struct NotificationView {
    pub method: Seq<char>,
    pub params: Option<JsonView>,
}

impl View for Notification {
    type V = NotificationView;

    open spec fn view(&self) -> NotificationView {
        NotificationView { method: self.method@, params: opt_view(self.params) }
    }
}

impl Clone for Notification {
    fn clone(&self) -> (r: Notification)
        ensures
            r@ == self@,
    {
        Notification { method: self.method.clone(), params: clone_payload(self.params.as_ref()) }
    }
}

/// The answer to a request: its identifier, and either a result or an error.
#[derive(Debug, PartialEq, Eq)]
pub struct Response {
    pub id: RequestId,
    pub outcome: Result<JsonValue, JsonRpcError>,
}

/// The mathematical value of a [`Response`].
pub struct ResponseView {
    pub id: IdView,
    pub outcome: Result<JsonView, ErrorView>,
}

impl View for Response {
    type V = ResponseView;

    open spec fn view(&self) -> ResponseView {
        ResponseView {
            id: self.id@,
            outcome: match self.outcome {
                Ok(result) => Ok(result@),
                Err(error) => Err(error@),
            },
        }
    }
}

impl Clone for Response {
    fn clone(&self) -> (r: Response)
        ensures
            r@ == self@,
    {
        let outcome = match &self.outcome {
            Ok(result) => Ok(result.clone()),
            Err(error) => Err(error.clone()),
        };
        Response { id: self.id.clone(), outcome }
    }
}

/// One protocol message.
#[derive(Debug, PartialEq, Eq)]
pub enum JsonRpcMessage {
    Request(Request),
    Notification(Notification),
    Response(Response),
}

/// The mathematical value of a [`JsonRpcMessage`].
pub enum MessageView {
    Request(RequestView),
    Notification(NotificationView),
    Response(ResponseView),
}

impl View for JsonRpcMessage {
    type V = MessageView;

    open spec fn view(&self) -> MessageView {
        match self {
            JsonRpcMessage::Request(r) => MessageView::Request(r@),
            JsonRpcMessage::Notification(n) => MessageView::Notification(n@),
            JsonRpcMessage::Response(r) => MessageView::Response(r@),
        }
    }
}

impl Clone for JsonRpcMessage {
    fn clone(&self) -> (r: JsonRpcMessage)
        ensures
            r@ == self@,
    {
        match self {
            JsonRpcMessage::Request(request) => JsonRpcMessage::Request(request.clone()),
            JsonRpcMessage::Notification(notification) => JsonRpcMessage::Notification(
                notification.clone(),
            ),
            JsonRpcMessage::Response(response) => JsonRpcMessage::Response(response.clone()),
        }
    }
}

/// Why a JSON value is not an envelope.
#[derive(Clone, Copy, Debug, PartialEq, Eq, Structural)]
pub enum DecodeError {
    /// The value is not an object.
    NotAnObject,
    /// The member `jsonrpc` is missing or is not the string `2.0`.
    InvalidVersion,
    /// The member `method` is not a string.
    InvalidMethod,
    /// The member `id` is neither a string nor an integer.
    InvalidId,
    /// The object has neither a `method` nor an `id`.
    Unrecognized,
    /// A response does not have exactly one of `result` and `error`.
    InvalidOutcome,
    /// The member `error` is not an object with an integer `code` of 32 bits
    /// and a string `message`.
    InvalidError,
}

/// What a decode error is reported as.
pub open spec fn decode_error_text(error: DecodeError) -> Seq<char> {
    match error {
        DecodeError::NotAnObject => "message is not an object"@,
        DecodeError::InvalidVersion => "member `jsonrpc` is missing or is not \"2.0\""@,
        DecodeError::InvalidMethod => "member `method` is not a string"@,
        DecodeError::InvalidId => "member `id` is neither a string nor an integer"@,
        DecodeError::Unrecognized => "message has neither `method` nor `id`"@,
        DecodeError::InvalidOutcome => "response must have exactly one of `result` and `error`"@,
        DecodeError::InvalidError => "member `error` is not an error object"@,
    }
}

impl DecodeError {
    /// What the error is reported as.
    pub fn describe(&self) -> (r: String)
        ensures
            r@ == decode_error_text(*self),
    {
        match self {
            DecodeError::NotAnObject => "message is not an object".to_owned(),
            DecodeError::InvalidVersion => "member `jsonrpc` is missing or is not \"2.0\"".to_owned(),
            DecodeError::InvalidMethod => "member `method` is not a string".to_owned(),
            DecodeError::InvalidId => "member `id` is neither a string nor an integer".to_owned(),
            DecodeError::Unrecognized => "message has neither `method` nor `id`".to_owned(),
            DecodeError::InvalidOutcome => "response must have exactly one of `result` and `error`".to_owned(),
            DecodeError::InvalidError => "member `error` is not an error object".to_owned(),
        }
    }
}

/// The JSON form of an identifier.
pub open spec fn id_json(id: IdView) -> JsonView {
    match id {
        IdView::Number(n) => JsonView::Number(JsonNumber::Integer(n)),
        IdView::String(s) => JsonView::String(s),
    }
}

/// The identifier that a JSON value stands for, if it stands for one.
pub open spec fn json_id(value: JsonView) -> Option<IdView> {
    match value {
        JsonView::Number(JsonNumber::Integer(n)) => Some(IdView::Number(n)),
        JsonView::String(s) => Some(IdView::String(s)),
        _ => None,
    }
}

/// The JSON form of an error object.
pub open spec fn error_json(error: ErrorView) -> JsonView {
    JsonView::Object(
        with_opt(
            Seq::<(Seq<char>, JsonView)>::empty().push(
                ("code"@, JsonView::Number(JsonNumber::Integer(error.code as i128))),
            ).push(("message"@, JsonView::String(error.message))),
            "data"@,
            error.data,
        ),
    )
}

/// The error object that a JSON value stands for, if it stands for one.
pub open spec fn json_error(value: JsonView) -> Option<ErrorView> {
    match (value.member("code"@), value.member("message"@)) {
        (Some(JsonView::Number(JsonNumber::Integer(code))), Some(JsonView::String(message))) => {
            if i32::MIN <= code <= i32::MAX {
                Some(ErrorView { code: code as i32, message, data: value.member("data"@) })
            } else {
                None
            }
        },
        _ => None,
    }
}

/// The members that open every envelope: the protocol version tag.
pub open spec fn version_tag() -> Members {
    Seq::<(Seq<char>, JsonView)>::empty().push(("jsonrpc"@, JsonView::String("2.0"@)))
}

/// The JSON form of an envelope.
pub open spec fn spec_encode(message: MessageView) -> JsonView {
    match message {
        MessageView::Request(r) => JsonView::Object(
            with_opt(
                version_tag().push(("id"@, id_json(r.id))).push(
                    ("method"@, JsonView::String(r.method)),
                ),
                "params"@,
                r.params,
            ),
        ),
        MessageView::Notification(n) => JsonView::Object(
            with_opt(
                version_tag().push(("method"@, JsonView::String(n.method))),
                "params"@,
                n.params,
            ),
        ),
        MessageView::Response(r) => JsonView::Object(
            version_tag().push(("id"@, id_json(r.id))).push(
                match r.outcome {
                    Ok(result) => ("result"@, result),
                    Err(error) => ("error"@, error_json(error)),
                },
            ),
        ),
    }
}

/// The outcome that the members `result` and `error` of a response stand for.
pub open spec fn json_outcome(result: Option<JsonView>, error: Option<JsonView>) -> Result<
    Result<JsonView, ErrorView>,
    DecodeError,
> {
    match (result, error) {
        (Some(value), None) => Ok(Ok(value)),
        (None, Some(value)) => match json_error(value) {
            Some(e) => Ok(Err(e)),
            None => Err(DecodeError::InvalidError),
        },
        _ => Err(DecodeError::InvalidOutcome),
    }
}

/// The envelope that a JSON value stands for, or the reason why it stands
/// for none.
///
/// An object with a `method` and no `id` is a notification, one with a
/// `method` and an `id` is a request, and one with an `id` and no `method`
/// is a response.  Members that the envelope does not name are ignored.
pub open spec fn spec_decode(value: JsonView) -> Result<MessageView, DecodeError> {
    if !(value is Object) {
        Err(DecodeError::NotAnObject)
    } else if value.member("jsonrpc"@) != Some(JsonView::String("2.0"@)) {
        Err(DecodeError::InvalidVersion)
    } else {
        match (value.member("method"@), value.member("id"@)) {
            (Some(JsonView::String(method)), None) => Ok(
                MessageView::Notification(
                    NotificationView { method, params: value.member("params"@) },
                ),
            ),
            (Some(JsonView::String(method)), Some(id)) => match json_id(id) {
                Some(id) => Ok(
                    MessageView::Request(
                        RequestView { id, method, params: value.member("params"@) },
                    ),
                ),
                None => Err(DecodeError::InvalidId),
            },
            (Some(_), _) => Err(DecodeError::InvalidMethod),
            (None, None) => Err(DecodeError::Unrecognized),
            (None, Some(id)) => match json_id(id) {
                Some(id) => match json_outcome(value.member("result"@), value.member("error"@)) {
                    Ok(outcome) => Ok(MessageView::Response(ResponseView { id, outcome })),
                    Err(e) => Err(e),
                },
                None => Err(DecodeError::InvalidId),
            },
        }
    }
}


/// Reveals what the keys of an envelope are made of, so that they can be
/// told apart.
pub proof fn lemma_envelope_keys()
    ensures
        "jsonrpc"@.len() == 7 && "jsonrpc"@[0] == 'j',
        "id"@.len() == 2,
        "method"@.len() == 6 && "method"@[0] == 'm',
        "params"@.len() == 6 && "params"@[0] == 'p',
        "result"@.len() == 6 && "result"@[0] == 'r',
        "error"@.len() == 5,
        "code"@.len() == 4 && "code"@[0] == 'c',
        "message"@.len() == 7 && "message"@[0] == 'm',
        "data"@.len() == 4 && "data"@[0] == 'd',
{
    reveal_strlit("jsonrpc");
    reveal_strlit("id");
    reveal_strlit("method");
    reveal_strlit("params");
    reveal_strlit("result");
    reveal_strlit("error");
    reveal_strlit("code");
    reveal_strlit("message");
    reveal_strlit("data");
}

/// Reading back the JSON form of an identifier gives the identifier.
pub proof fn lemma_id_round_trip(id: IdView)
    ensures
        json_id(id_json(id)) == Some(id),
{
}

/// Reading back the JSON form of an error object gives the error object.
pub proof fn lemma_error_round_trip(error: ErrorView)
    ensures
        json_error(error_json(error)) == Some(error),
{
    broadcast use lemma_lookup_push;

    lemma_envelope_keys();
    lemma_lookup_empty("code"@);
    lemma_lookup_empty("message"@);
    lemma_lookup_empty("data"@);
}

/// Encoding an envelope and decoding the result gives the envelope back,
/// equal in every field.
pub proof fn lemma_decode_encode(message: MessageView)
    ensures
        spec_decode(spec_encode(message)) == Ok::<MessageView, DecodeError>(message),
{
    broadcast use lemma_lookup_push;

    lemma_envelope_keys();
    lemma_lookup_empty("jsonrpc"@);
    lemma_lookup_empty("id"@);
    lemma_lookup_empty("method"@);
    lemma_lookup_empty("params"@);
    lemma_lookup_empty("result"@);
    lemma_lookup_empty("error"@);
    match message {
        MessageView::Request(r) => {
            lemma_id_round_trip(r.id);
        },
        MessageView::Notification(n) => {},
        MessageView::Response(r) => {
            lemma_id_round_trip(r.id);
            match r.outcome {
                Ok(result) => {},
                Err(error) => {
                    lemma_error_round_trip(error);
                },
            }
        },
    }
}


/// A copy of an optional payload.
pub fn clone_payload(payload: Option<&JsonValue>) -> (r: Option<JsonValue>)
    ensures
        match payload {
            Some(value) => r matches Some(copy) && copy@ == value@,
            None => r is None,
        },
{
    match payload {
        Some(value) => Some(value.clone()),
        None => None,
    }
}

impl RequestId {
    /// The JSON form of the identifier.
    pub fn to_json(&self) -> (r: JsonValue)
        ensures
            r@ == id_json(self@),
    {
        match self {
            RequestId::Number(n) => JsonValue::Number(JsonNumber::Integer(*n)),
            RequestId::String(s) => JsonValue::String(s.clone()),
        }
    }

    /// Reads an identifier: a string or an integer.
    pub fn from_json(value: &JsonValue) -> (r: Option<RequestId>)
        ensures
            match r {
                Some(id) => json_id(value@) == Some(id@),
                None => json_id(value@) is None,
            },
    {
        match value {
            JsonValue::Number(JsonNumber::Integer(n)) => Some(RequestId::Number(*n)),
            JsonValue::String(s) => Some(RequestId::String(s.clone())),
            _ => None,
        }
    }
}

impl JsonRpcError {
    /// The JSON form of the error object.
    pub fn to_json(&self) -> (r: JsonValue)
        ensures
            r@ == error_json(self@),
    {
        let mut members = no_members();
        put(&mut members, "code", JsonValue::Number(JsonNumber::Integer(self.code as i128)));
        put(&mut members, "message", JsonValue::String(self.message.clone()));
        put_opt(&mut members, "data", clone_payload(self.data.as_ref()));
        JsonValue::object(members)
    }

    /// Reads an error object: an object with an integer `code` that fits in
    /// 32 bits and a string `message`; `data` is taken as it comes.
    pub fn from_json(value: &JsonValue) -> (r: Option<JsonRpcError>)
        ensures
            match r {
                Some(e) => json_error(value@) == Some(e@),
                None => json_error(value@) is None,
            },
    {
        let code = match value.get("code") {
            Some(JsonValue::Number(JsonNumber::Integer(code))) => *code,
            _ => { return None; },
        };
        let message = match value.get("message") {
            Some(JsonValue::String(message)) => message.clone(),
            _ => { return None; },
        };
        if i32::MIN as i128 <= code && code <= i32::MAX as i128 {
            let data = clone_payload(value.get("data"));
            Some(JsonRpcError { code: code as i32, message, data })
        } else {
            None
        }
    }
}

impl JsonRpcMessage {
    /// Writes the envelope as a JSON value.  The protocol version tag always
    /// stands at the outer level.
    pub fn encode(&self) -> (r: JsonValue)
        ensures
            r@ == spec_encode(self@),
    {
        let mut members = no_members();
        put(&mut members, "jsonrpc", JsonValue::text("2.0"));
        match self {
            JsonRpcMessage::Request(request) => {
                put(&mut members, "id", request.id.to_json());
                put(&mut members, "method", JsonValue::String(request.method.clone()));
                put_opt(&mut members, "params", clone_payload(request.params.as_ref()));
            },
            JsonRpcMessage::Notification(notification) => {
                put(&mut members, "method", JsonValue::String(notification.method.clone()));
                put_opt(&mut members, "params", clone_payload(notification.params.as_ref()));
            },
            JsonRpcMessage::Response(response) => {
                put(&mut members, "id", response.id.to_json());
                match &response.outcome {
                    Ok(result) => put(&mut members, "result", result.clone()),
                    Err(error) => put(&mut members, "error", error.to_json()),
                }
            },
        }
        JsonValue::object(members)
    }

    /// Reads an envelope from a JSON value, or says why the value is none.
    pub fn decode(value: &JsonValue) -> (r: Result<JsonRpcMessage, DecodeError>)
        ensures
            match r {
                Ok(message) => spec_decode(value@) == Ok::<MessageView, DecodeError>(message@),
                Err(e) => spec_decode(value@) == Err::<MessageView, DecodeError>(e),
            },
    {
        match value {
            JsonValue::Object(_) => {},
            _ => { return Err(DecodeError::NotAnObject); },
        }
        match value.get("jsonrpc") {
            Some(JsonValue::String(version)) => {
                if !same_text(version.as_str(), "2.0") {
                    return Err(DecodeError::InvalidVersion);
                }
            },
            _ => { return Err(DecodeError::InvalidVersion); },
        }
        let id = value.get("id");
        match value.get("method") {
            Some(JsonValue::String(method)) => {
                let params = clone_payload(value.get("params"));
                match id {
                    None => Ok(
                        JsonRpcMessage::Notification(
                            Notification { method: method.clone(), params },
                        ),
                    ),
                    Some(id) => match RequestId::from_json(id) {
                        Some(id) => Ok(
                            JsonRpcMessage::Request(
                                Request { id, method: method.clone(), params },
                            ),
                        ),
                        None => Err(DecodeError::InvalidId),
                    },
                }
            },
            Some(_) => Err(DecodeError::InvalidMethod),
            None => {
                let id = match id {
                    None => { return Err(DecodeError::Unrecognized); },
                    Some(id) => match RequestId::from_json(id) {
                        Some(id) => id,
                        None => { return Err(DecodeError::InvalidId); },
                    },
                };
                match (value.get("result"), value.get("error")) {
                    (Some(result), None) => Ok(
                        JsonRpcMessage::Response(Response { id, outcome: Ok(result.clone()) }),
                    ),
                    (None, Some(error)) => match JsonRpcError::from_json(error) {
                        Some(error) => Ok(
                            JsonRpcMessage::Response(Response { id, outcome: Err(error) }),
                        ),
                        None => Err(DecodeError::InvalidError),
                    },
                    _ => Err(DecodeError::InvalidOutcome),
                }
            },
        }
    }
}

} // verus!
