//! The server side: what one request does to the application state, and the
//! single reply line that a connection sends back.
use vstd::prelude::*;
use vstd::string::StringExecFns;
use crate::color::{AppAction, AppState, BackgroundColor, color_name, succ};
use crate::json::{as_u64, get_member, json_parse, json_render, member_text, member_u64, parse};
use crate::protocol::{
    AcpError, AcpMessage, AcpMessageView, AcpResponsePayload, RequestField, ResponseView,
    decode_spec, error_text, frame, message_json, response_json,
};

verus! {

/// What a request asks for, or why it cannot be served.
pub open spec fn request_verdict(m: AcpMessageView) -> Result<AppAction, AcpError> {
    if m.message_type != "request"@ {
        Err(AcpError::UnsupportedMessageType)
    } else {
        match member_text(m.payload, "action"@) {
            None => Err(AcpError::MissingField(RequestField::Action)),
            Some(a) => if a != "custom_command"@ {
                Err(AcpError::UnsupportedAction)
            } else {
                match member_text(m.payload, "command_name"@) {
                    None => Err(AcpError::MissingField(RequestField::CommandName)),
                    Some(c) => if c == "CYCLE_COLOR"@ {
                        Ok(AppAction::CycleColor)
                    } else {
                        Err(AcpError::UnknownCommand)
                    },
                }
            },
        }
    }
}

/// The confirmation sent once the display mode has become `c`.
pub open spec fn cycled_text(c: BackgroundColor) -> Seq<char> {
    "Background color cycled to "@ + color_name(c)
}

/// The failure payload for an error.
pub open spec fn failure_view(e: AcpError) -> ResponseView {
    ResponseView { success: false, message: error_text(e) }
}

/// The state after a verdict is carried out, and the payload that reports it.
pub open spec fn dispatch_spec(verdict: Result<AppAction, AcpError>, before: BackgroundColor) -> (
    BackgroundColor,
    ResponseView,
) {
    match verdict {
        Ok(AppAction::CycleColor) => (
            succ(before),
            ResponseView { success: true, message: cycled_text(succ(before)) },
        ),
        Err(e) => (before, failure_view(e)),
    }
}

/// The response envelope for a sequence id and a payload.
pub open spec fn reply_view(seq_id: u64, p: ResponseView) -> AcpMessageView {
    AcpMessageView { message_type: "response"@, seq_id, payload: response_json(p) }
}

/// The sequence id that a failure reply to a line is addressed to: the line's
/// own where it can be read, else zero.
pub open spec fn recovered_seq(line: Seq<char>) -> u64 {
    match json_parse(line) {
        Some(v) => match member_u64(v, "seq_id"@) {
            Some(s) => s,
            None => 0,
        },
        None => 0,
    }
}

/// The state after one received line is handled, and the reply envelope.
pub open spec fn respond_spec(line: Seq<char>, before: BackgroundColor) -> (
    BackgroundColor,
    AcpMessageView,
) {
    match decode_spec(line) {
        Ok(m) => {
            let (after, p) = dispatch_spec(request_verdict(m), before);
            (after, reply_view(m.seq_id, p))
        },
        Err(e) => (before, reply_view(recovered_seq(line), failure_view(e))),
    }
}

/// The command that a request asks for, or why it cannot be served.
pub fn validate_request(m: &AcpMessage) -> (r: Result<AppAction, AcpError>)
    ensures
        r == request_verdict(m@),
{
    let request = "request".to_owned();
    if m.message_type != request {
        return Err(AcpError::UnsupportedMessageType);
    }
    let action = match get_member(&m.payload, "action") {
        Some(v) => crate::json::as_text(&v),
        None => None,
    };
    let action = match action {
        Some(a) => a,
        None => {
            return Err(AcpError::MissingField(RequestField::Action));
        },
    };
    let custom = "custom_command".to_owned();
    if action != custom {
        return Err(AcpError::UnsupportedAction);
    }
    let command = match get_member(&m.payload, "command_name") {
        Some(v) => crate::json::as_text(&v),
        None => None,
    };
    let command = match command {
        Some(c) => c,
        None => {
            return Err(AcpError::MissingField(RequestField::CommandName));
        },
    };
    let cycle = "CYCLE_COLOR".to_owned();
    if command == cycle {
        Ok(AppAction::CycleColor)
    } else {
        Err(AcpError::UnknownCommand)
    }
}

/// The failure payload for an error.
pub fn failure_payload(e: AcpError) -> (r: AcpResponsePayload)
    ensures
        r@ == failure_view(e),
{
    AcpResponsePayload { success: false, message: e.message().to_owned() }
}

/// Carries out a request against the state: a recognized command advances the
/// display mode by one step and is confirmed with the new mode's name; any
/// other request leaves the state as it was and gets a failure payload.
pub fn dispatch(m: &AcpMessage, state: &mut AppState) -> (r: AcpResponsePayload)
    ensures
        (final(state)@, r@) == dispatch_spec(request_verdict(m@), old(state)@),
{
    match validate_request(m) {
        Ok(AppAction::CycleColor) => {
            let c = state.cycle_bg_color();
            let mut message = "Background color cycled to ".to_owned();
            message.append(c.name());
            AcpResponsePayload { success: true, message }
        },
        Err(e) => failure_payload(e),
    }
}

/// The response envelope that carries a payload to the request `seq_id`.
pub fn response_message(seq_id: u64, p: AcpResponsePayload) -> (r: AcpMessage)
    ensures
        r@ == reply_view(seq_id, p@),
{
    AcpMessage { message_type: "response".to_owned(), seq_id, payload: p.to_json() }
}

/// The failure response to the request `seq_id`.
pub fn error_response(seq_id: u64, e: AcpError) -> (r: AcpMessage)
    ensures
        r@ == reply_view(seq_id, failure_view(e)),
{
    response_message(seq_id, failure_payload(e))
}

/// The sequence id of a line that could not be decoded, where it can be read.
fn recover_seq(line: &str) -> (r: u64)
    ensures
        r == recovered_seq(line@),
{
    match parse(line) {
        Some(v) => match get_member(&v, "seq_id") {
            Some(s) => match as_u64(&s) {
                Some(n) => n,
                None => 0,
            },
            None => 0,
        },
        None => 0,
    }
}

/// Handles one received line: decodes it, carries it out, and builds the one
/// reply envelope, which echoes the request's sequence id.
pub fn respond(line: &str, state: &mut AppState) -> (r: AcpMessage)
    ensures
        (final(state)@, r@) == respond_spec(line@, old(state)@),
{
    match AcpMessage::decode(line) {
        Ok(m) => {
            let p = dispatch(&m, state);
            response_message(m.seq_id, p)
        },
        Err(e) => error_response(recover_seq(line), e),
    }
}

/// The reply line that a connection writes back for the line it read.
pub fn handle_request_line(line: &str, state: &mut AppState) -> (r: String)
    ensures
        final(state)@ == respond_spec(line@, old(state)@).0,
        r@ == frame(json_render(message_json(respond_spec(line@, old(state)@).1))),
{
    respond(line, state).encode()
}

/// A request for the display-cycle command advances the state by exactly one
/// step of its cycle and is confirmed with the name of the new mode.
pub proof fn lemma_cycle_command_advances(m: AcpMessageView, before: BackgroundColor)
    requires
        m.message_type == "request"@,
        member_text(m.payload, "action"@) == Some("custom_command"@),
        member_text(m.payload, "command_name"@) == Some("CYCLE_COLOR"@),
    ensures
        request_verdict(m) == Ok::<AppAction, AcpError>(AppAction::CycleColor),
        dispatch_spec(request_verdict(m), before) == (
            succ(before),
            ResponseView { success: true, message: "Background color cycled to "@ + color_name(succ(before)) },
        ),
{
}

/// A request for a command that is not known fails with an unknown-command
/// payload and leaves the state unchanged.
pub proof fn lemma_unknown_command_keeps_state(
    m: AcpMessageView,
    command: Seq<char>,
    before: BackgroundColor,
)
    requires
        m.message_type == "request"@,
        member_text(m.payload, "action"@) == Some("custom_command"@),
        member_text(m.payload, "command_name"@) == Some(command),
        command != "CYCLE_COLOR"@,
    ensures
        dispatch_spec(request_verdict(m), before) == (before, failure_view(AcpError::UnknownCommand)),
{
}

/// The reply to a line that decodes carries the request's own sequence id.
pub proof fn lemma_reply_echoes_seq(line: Seq<char>, before: BackgroundColor)
    requires
        decode_spec(line) is Ok,
    ensures
        respond_spec(line, before).1.seq_id == decode_spec(line)->Ok_0.seq_id,
        respond_spec(line, before).1.message_type == "response"@,
{
}

/// Malformed input never changes the state and always gets a failure reply:
/// a line that is not JSON, or lacks a usable `seq_id`, is a malformed
/// message answered to sequence id zero, and a request whose `action` is not
/// a string is missing its action field.
pub proof fn lemma_malformed_input(line: Seq<char>, before: BackgroundColor)
    ensures
        json_parse(line) is None ==> decode_spec(line) == Err::<AcpMessageView, AcpError>(
            AcpError::MalformedMessage,
        ) && respond_spec(line, before) == (
            before,
            reply_view(0, failure_view(AcpError::MalformedMessage)),
        ),
        (json_parse(line) is Some && member_u64(json_parse(line)->Some_0, "seq_id"@) is None) ==> (
        decode_spec(line) == Err::<AcpMessageView, AcpError>(AcpError::MalformedMessage)
            && respond_spec(line, before) == (
            before,
            reply_view(0, failure_view(AcpError::MalformedMessage)),
        )),
        (decode_spec(line) is Ok && decode_spec(line)->Ok_0.message_type == "request"@
            && member_text(decode_spec(line)->Ok_0.payload, "action"@) is None) ==> respond_spec(
            line,
            before,
        ) == (
            before,
            reply_view(
                decode_spec(line)->Ok_0.seq_id,
                failure_view(AcpError::MissingField(RequestField::Action)),
            ),
        ),
{
}

} // verus!
