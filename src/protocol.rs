//! The wire messages of the protocol and their codec.
use vstd::prelude::*;
use vstd::string::StringExecFns;
use serde_json::Value;
use crate::json::{
    as_bool, as_text, as_u64, bool_value, entries_view, get_member, json_bool, json_member,
    json_number, json_object, json_opt_text, json_parse, json_render, member_bool, member_text, member_u64, number_value, object_value,
    opt_text_value, parse, render,
};

verus! {

/// The envelope of every message: its type, the sequence id that pairs a
/// request with its response, and a payload whose shape depends on the type.
pub struct AcpMessage {
    pub message_type: String,
    pub seq_id: u64,
    pub payload: Value,
}

/// An envelope as the contracts see it.
pub struct AcpMessageView {
    pub message_type: Seq<char>,
    pub seq_id: u64,
    pub payload: Value,
}

impl View for AcpMessage {
    type V = AcpMessageView;

    open spec fn view(&self) -> AcpMessageView {
        AcpMessageView { message_type: self.message_type@, seq_id: self.seq_id, payload: self.payload }
    }
}

/// The payload of a response: whether the command succeeded, and a message
/// that confirms it or describes the failure.
pub struct AcpResponsePayload {
    pub success: bool,
    pub message: String,
}

/// A response payload as the contracts see it.
pub struct ResponseView {
    pub success: bool,
    pub message: Seq<char>,
}

impl View for AcpResponsePayload {
    type V = ResponseView;

    open spec fn view(&self) -> ResponseView {
        ResponseView { success: self.success, message: self.message@ }
    }
}

/// The request fields that a command needs.
#[derive(Debug, Clone, Copy, PartialEq, Eq, Structural)]
pub enum RequestField {
    Action,
    CommandName,
}

/// Everything that can go wrong on either side of the channel.
#[derive(Debug, Clone, Copy, PartialEq, Eq, Structural)]
pub enum AcpError {
    MalformedMessage,
    UnsupportedMessageType,
    MissingField(RequestField),
    UnsupportedAction,
    UnknownCommand,
    CorrelationError,
    PayloadDecodeError,
    ConnectionError,
    ResolverError,
}

/// The description of an error carried by a failure response.
pub open spec fn error_text(e: AcpError) -> Seq<char> {
    match e {
        AcpError::MalformedMessage => "malformed message"@,
        AcpError::UnsupportedMessageType => "unsupported message type"@,
        AcpError::MissingField(RequestField::Action) => "missing action field"@,
        AcpError::MissingField(RequestField::CommandName) => "missing command_name field"@,
        AcpError::UnsupportedAction => "unsupported action type"@,
        AcpError::UnknownCommand => "unknown command"@,
        AcpError::CorrelationError => "response sequence id does not match the request"@,
        AcpError::PayloadDecodeError => "response payload could not be decoded"@,
        AcpError::ConnectionError => "connection failed"@,
        AcpError::ResolverError => "intent resolution failed"@,
    }
}

impl AcpError {
    /// A human-readable description of the error.
    pub fn message(&self) -> (r: &'static str)
        ensures
            r@ == error_text(*self),
    {
        match self {
            AcpError::MalformedMessage => "malformed message",
            AcpError::UnsupportedMessageType => "unsupported message type",
            AcpError::MissingField(RequestField::Action) => "missing action field",
            AcpError::MissingField(RequestField::CommandName) => "missing command_name field",
            AcpError::UnsupportedAction => "unsupported action type",
            AcpError::UnknownCommand => "unknown command",
            AcpError::CorrelationError => "response sequence id does not match the request",
            AcpError::PayloadDecodeError => "response payload could not be decoded",
            AcpError::ConnectionError => "connection failed",
            AcpError::ResolverError => "intent resolution failed",
        }
    }
}

/// The JSON object of an envelope.
pub open spec fn message_json(m: AcpMessageView) -> Value {
    json_object(
        seq![
            ("type"@, json_opt_text(Some(m.message_type))),
            ("seq_id"@, json_number(m.seq_id)),
            ("payload"@, m.payload),
        ],
    )
}

/// The envelope held by a JSON value: `type` a string, `seq_id` an unsigned
/// integer and `payload` present.
pub open spec fn message_from_json(v: Value) -> Result<AcpMessageView, AcpError> {
    match (member_text(v, "type"@), member_u64(v, "seq_id"@), json_member(v, "payload"@)) {
        (Some(t), Some(s), Some(p)) => Ok(AcpMessageView { message_type: t, seq_id: s, payload: p }),
        _ => Err(AcpError::MalformedMessage),
    }
}

/// One line of the wire: a JSON text followed by the newline delimiter.
pub open spec fn frame(text: Seq<char>) -> Seq<char> {
    text.push('\n')
}

/// The envelope that one received line holds.
pub open spec fn decode_spec(line: Seq<char>) -> Result<AcpMessageView, AcpError> {
    match json_parse(line) {
        Some(v) => message_from_json(v),
        None => Err(AcpError::MalformedMessage),
    }
}

/// The view of a decoded envelope.
pub open spec fn message_result_view(r: Result<AcpMessage, AcpError>) -> Result<
    AcpMessageView,
    AcpError,
> {
    match r {
        Ok(m) => Ok(m@),
        Err(e) => Err(e),
    }
}

/// The JSON object of a response payload.
pub open spec fn response_json(p: ResponseView) -> Value {
    json_object(
        seq![("success"@, json_bool(p.success)), ("message"@, json_opt_text(Some(p.message)))],
    )
}

/// The response payload held by a JSON value.
pub open spec fn response_from_json(v: Value) -> Result<ResponseView, AcpError> {
    match (member_bool(v, "success"@), member_text(v, "message"@)) {
        (Some(b), Some(t)) => Ok(ResponseView { success: b, message: t }),
        _ => Err(AcpError::PayloadDecodeError),
    }
}

/// The view of a decoded response payload.
pub open spec fn response_result_view(r: Result<AcpResponsePayload, AcpError>) -> Result<
    ResponseView,
    AcpError,
> {
    match r {
        Ok(p) => Ok(p@),
        Err(e) => Err(e),
    }
}

/// `s` holds exactly the text `lit`.
fn text_is(s: &String, lit: &str) -> (r: bool)
    ensures
        r == (s@ == lit@),
{
    let t = lit.to_owned();
    *s == t
}

impl AcpMessage {
    /// The JSON object of this envelope; reading it back gives the same envelope.
    pub fn to_json(self) -> (r: Value)
        ensures
            r == message_json(self@),
            message_from_json(r) == Ok::<AcpMessageView, AcpError>(self@),
    {
        let ghost m = self@;
        let AcpMessage { message_type, seq_id, payload } = self;
        let k_type = "type".to_owned();
        let k_seq = "seq_id".to_owned();
        let k_payload = "payload".to_owned();
        let t = opt_text_value(Some(message_type));
        let n = number_value(seq_id);
        proof {
            reveal_strlit("type");
            reveal_strlit("seq_id");
            reveal_strlit("payload");
        }
        let entries = vec![(k_type, t), (k_seq, n), (k_payload, payload)];
        assert(entries_view(entries@) =~= seq![
            ("type"@, json_opt_text(Some(m.message_type))),
            ("seq_id"@, json_number(m.seq_id)),
            ("payload"@, m.payload),
        ]);
        let ghost e = entries@;
        assert(e[0].0@.len() == 4 && e[1].0@.len() == 6 && e[2].0@.len() == 7);
        let r = object_value(entries);
        assert(json_member(r, e[0].0@) == Some(e[0].1));
        assert(json_member(r, e[1].0@) == Some(e[1].1));
        assert(json_member(r, e[2].0@) == Some(e[2].1));
        r
    }

    /// Reads an envelope out of a JSON value.
    pub fn from_json(v: &Value) -> (r: Result<AcpMessage, AcpError>)
        ensures
            message_result_view(r) == message_from_json(*v),
    {
        let t = match get_member(v, "type") {
            Some(m) => as_text(&m),
            None => None,
        };
        let s = match get_member(v, "seq_id") {
            Some(m) => as_u64(&m),
            None => None,
        };
        let p = get_member(v, "payload");
        match (t, s, p) {
            (Some(t), Some(s), Some(p)) => Ok(AcpMessage { message_type: t, seq_id: s, payload: p }),
            _ => Err(AcpError::MalformedMessage),
        }
    }

    /// One line of the wire for this envelope: its compact JSON text and a newline.
    pub fn encode(self) -> (r: String)
        ensures
            r@ == frame(json_render(message_json(self@))),
    {
        let v = self.to_json();
        let mut line = render(&v);
        line.append("\n");
        proof {
            reveal_strlit("\n");
        }
        assert(line@ =~= frame(json_render(v)));
        line
    }

    /// Reads the envelope of one received line; a text that is not JSON, or a
    /// JSON value without the envelope's fields, is a `MalformedMessage`.
    pub fn decode(line: &str) -> (r: Result<AcpMessage, AcpError>)
        ensures
            message_result_view(r) == decode_spec(line@),
    {
        match parse(line) {
            Some(v) => AcpMessage::from_json(&v),
            None => Err(AcpError::MalformedMessage),
        }
    }
}

impl AcpResponsePayload {
    /// The JSON object of this payload; reading it back gives the same payload.
    pub fn to_json(self) -> (r: Value)
        ensures
            r == response_json(self@),
            response_from_json(r) == Ok::<ResponseView, AcpError>(self@),
    {
        let ghost p = self@;
        let AcpResponsePayload { success, message } = self;
        let k_success = "success".to_owned();
        let k_message = "message".to_owned();
        let b = bool_value(success);
        let m = opt_text_value(Some(message));
        proof {
            reveal_strlit("success");
            reveal_strlit("message");
        }
        let entries = vec![(k_success, b), (k_message, m)];
        assert(entries_view(entries@) =~= seq![
            ("success"@, json_bool(p.success)),
            ("message"@, json_opt_text(Some(p.message))),
        ]);
        let ghost e = entries@;
        assert(e[0].0@.len() == 7 && e[1].0@[0] == 'm');
        let r = object_value(entries);
        assert(json_member(r, e[0].0@) == Some(e[0].1));
        assert(json_member(r, e[1].0@) == Some(e[1].1));
        r
    }

    /// Reads a response payload out of a JSON value: `success` a boolean and
    /// `message` a string, else a `PayloadDecodeError`.
    pub fn from_json(v: &Value) -> (r: Result<AcpResponsePayload, AcpError>)
        ensures
            response_result_view(r) == response_from_json(*v),
    {
        let b = match get_member(v, "success") {
            Some(m) => as_bool(&m),
            None => None,
        };
        let t = match get_member(v, "message") {
            Some(m) => as_text(&m),
            None => None,
        };
        match (b, t) {
            (Some(b), Some(t)) => Ok(AcpResponsePayload { success: b, message: t }),
            _ => Err(AcpError::PayloadDecodeError),
        }
    }
}

} // verus!
