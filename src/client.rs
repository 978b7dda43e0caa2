//! The client side: the request for a command, the reading of its reply, and
//! when a fresh connection is needed.
use vstd::prelude::*;
use serde_json::Value;
use crate::color::AppAction;
use crate::json::{
    entries_view, json_member, json_object, json_opt_text, json_render, member_text, object_value,
    opt_text_value,
};
use crate::protocol::{
    AcpError, AcpMessage, AcpMessageView, AcpResponsePayload, ResponseView, decode_spec, frame,
    message_json, response_from_json, response_result_view,
};
use crate::server::request_verdict;

verus! {

/// The fixed address of the application's listener.
pub const ACP_ADDRESS: &'static str = "127.0.0.1:7880";

/// The command that advances the display mode.
pub const CYCLE_COLOR: &'static str = "CYCLE_COLOR";

/// Relies on `rand::random`: a value drawn from the thread-local generator,
/// of which nothing is promised.
pub assume_specification<T>[ rand::random::<T> ]() -> (r: T)
    where
        rand::distributions::Standard: rand::distributions::Distribution<T>,
;

/// A sequence id for a new request, drawn at random.
pub fn fresh_seq_id() -> u64 {
    rand::random::<u64>()
}

/// The payload of a request to run `command`: the action, the command's name,
/// and the reserved fields left null.
pub open spec fn request_json(command: Seq<char>) -> Value {
    json_object(
        seq![
            ("action"@, json_opt_text(Some("custom_command"@))),
            ("command_name"@, json_opt_text(Some(command))),
            ("element_id"@, json_opt_text(None)),
            ("target_query"@, json_opt_text(None)),
            ("params"@, json_opt_text(None)),
        ],
    )
}

/// The request envelope for a command.
pub open spec fn request_view(seq_id: u64, command: Seq<char>) -> AcpMessageView {
    AcpMessageView { message_type: "request"@, seq_id, payload: request_json(command) }
}

/// What the server makes of a request for `command`.
pub open spec fn command_verdict(command: Seq<char>) -> Result<AppAction, AcpError> {
    if command == "CYCLE_COLOR"@ {
        Ok(AppAction::CycleColor)
    } else {
        Err(AcpError::UnknownCommand)
    }
}

/// The request envelope that asks the server to run `command_name`; the
/// server reads back exactly that command from it.
pub fn request_message(seq_id: u64, command_name: &str) -> (r: AcpMessage)
    ensures
        r@ == request_view(seq_id, command_name@),
        member_text(r@.payload, "action"@) == Some("custom_command"@),
        member_text(r@.payload, "command_name"@) == Some(command_name@),
        request_verdict(r@) == command_verdict(command_name@),
{
    let k_action = "action".to_owned();
    let k_command = "command_name".to_owned();
    let k_element = "element_id".to_owned();
    let k_target = "target_query".to_owned();
    let k_params = "params".to_owned();
    let action = opt_text_value(Some("custom_command".to_owned()));
    let command = opt_text_value(Some(command_name.to_owned()));
    let element = opt_text_value(None);
    let target = opt_text_value(None);
    let params = opt_text_value(None);
    proof {
        reveal_strlit("action");
        reveal_strlit("command_name");
        reveal_strlit("element_id");
        reveal_strlit("target_query");
        reveal_strlit("params");
    }
    let entries = vec![
        (k_action, action),
        (k_command, command),
        (k_element, element),
        (k_target, target),
        (k_params, params),
    ];
    let ghost e = entries@;
    assert(entries_view(e) =~= seq![
        ("action"@, json_opt_text(Some("custom_command"@))),
        ("command_name"@, json_opt_text(Some(command_name@))),
        ("element_id"@, json_opt_text(None)),
        ("target_query"@, json_opt_text(None)),
        ("params"@, json_opt_text(None)),
    ]);
    assert(e[0].0@.len() == 6 && e[1].0@.len() == 12 && e[2].0@.len() == 10);
    assert(e[3].0@.len() == 12 && e[4].0@.len() == 6);
    assert(e[0].0@[0] == 'a' && e[4].0@[0] == 'p' && e[1].0@[0] == 'c' && e[3].0@[0] == 't');
    let payload = object_value(entries);
    assert(json_member(payload, e[0].0@) == Some(e[0].1));
    assert(json_member(payload, e[1].0@) == Some(e[1].1));
    AcpMessage { message_type: "request".to_owned(), seq_id, payload }
}

/// The request line that asks the server to run `command_name`.
pub fn request_line(seq_id: u64, command_name: &str) -> (r: String)
    ensures
        r@ == frame(json_render(message_json(request_view(seq_id, command_name@)))),
{
    request_message(seq_id, command_name).encode()
}

/// What the reply line to the request `expected` tells: a line that cannot be
/// decoded is malformed, a reply to another request is a correlation error,
/// and otherwise the payload is read.
pub open spec fn response_verdict(expected: u64, line: Seq<char>) -> Result<ResponseView, AcpError> {
    match decode_spec(line) {
        Err(e) => Err(e),
        Ok(m) => if m.seq_id != expected {
            Err(AcpError::CorrelationError)
        } else {
            response_from_json(m.payload)
        },
    }
}

/// Reads the reply line to the request `expected`.
pub fn read_response(expected: u64, line: &str) -> (r: Result<AcpResponsePayload, AcpError>)
    ensures
        response_result_view(r) == response_verdict(expected, line@),
{
    let m = AcpMessage::decode(line)?;
    if m.seq_id != expected {
        return Err(AcpError::CorrelationError);
    }
    AcpResponsePayload::from_json(&m.payload)
}

/// A reply addressed to another sequence id is a correlation error, and none
/// of its payload reaches the caller.
pub proof fn lemma_mismatched_reply_rejected(expected: u64, line: Seq<char>)
    requires
        decode_spec(line) is Ok,
        decode_spec(line)->Ok_0.seq_id != expected,
    ensures
        response_verdict(expected, line) == Err::<ResponseView, AcpError>(AcpError::CorrelationError),
{
}

} // verus!
