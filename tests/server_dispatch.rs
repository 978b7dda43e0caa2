use agentkit::color::{AppState, BackgroundColor};
use agentkit::protocol::{AcpError, AcpMessage, RequestField};
use agentkit::server::{dispatch, error_response, handle_request_line, respond, validate_request};
use serde_json::Value;

fn reply_of(line: &str, state: &mut AppState) -> Value {
    let out = handle_request_line(line, state);
    assert!(out.ends_with('\n'));
    serde_json::from_str(out.trim_end()).unwrap()
}

#[test]
fn cycle_color_scenario() {
    let mut state = AppState::new();
    let v = reply_of(
        r#"{"type":"request","seq_id":42,"payload":{"action":"custom_command","command_name":"CYCLE_COLOR"}}"#,
        &mut state,
    );
    assert_eq!(v["type"], Value::from("response"));
    assert_eq!(v["seq_id"], Value::from(42u64));
    assert_eq!(v["payload"]["success"], Value::Bool(true));
    assert!(v["payload"]["message"].as_str().unwrap().contains("Light Blue"));
    assert_eq!(state.get_bg_color(), BackgroundColor::LightBlue);
}

#[test]
fn bogus_command_scenario() {
    let mut state = AppState::new();
    let v = reply_of(
        r#"{"type":"request","seq_id":5,"payload":{"action":"custom_command","command_name":"BOGUS"}}"#,
        &mut state,
    );
    assert_eq!(v["seq_id"], Value::from(5u64));
    assert_eq!(v["payload"]["success"], Value::Bool(false));
    assert!(v["payload"]["message"].as_str().unwrap().contains("unknown command"));
    assert_eq!(state.get_bg_color(), BackgroundColor::White);
}

#[test]
fn each_cycle_names_the_new_color() {
    let mut state = AppState::new();
    let line = r#"{"type":"request","seq_id":1,"payload":{"action":"custom_command","command_name":"CYCLE_COLOR"}}"#;
    for name in ["Light Blue", "Light Green", "White"] {
        let m = respond(line, &mut state);
        let p = agentkit::protocol::AcpResponsePayload::from_json(&m.payload).unwrap();
        assert!(p.success);
        assert_eq!(p.message, format!("Background color cycled to {}", name));
    }
}

#[test]
fn wrong_message_type_is_refused() {
    let mut state = AppState::new();
    let v = reply_of(
        r#"{"type":"response","seq_id":9,"payload":{"action":"custom_command","command_name":"CYCLE_COLOR"}}"#,
        &mut state,
    );
    assert_eq!(v["seq_id"], Value::from(9u64));
    assert_eq!(v["payload"]["success"], Value::Bool(false));
    assert_eq!(v["payload"]["message"], Value::from("unsupported message type"));
    assert_eq!(state.get_bg_color(), BackgroundColor::White);
}

#[test]
fn action_of_wrong_type_is_missing() {
    let mut state = AppState::new();
    let v = reply_of(r#"{"type":"request","seq_id":3,"payload":{"action":17}}"#, &mut state);
    assert_eq!(v["payload"]["message"], Value::from("missing action field"));
    let v = reply_of(r#"{"type":"request","seq_id":3,"payload":{}}"#, &mut state);
    assert_eq!(v["payload"]["message"], Value::from("missing action field"));
    assert_eq!(state.get_bg_color(), BackgroundColor::White);
}

#[test]
fn other_action_is_unsupported() {
    let mut state = AppState::new();
    let v = reply_of(r#"{"type":"request","seq_id":3,"payload":{"action":"click"}}"#, &mut state);
    assert_eq!(v["payload"]["message"], Value::from("unsupported action type"));
}

#[test]
fn command_name_is_required() {
    let mut state = AppState::new();
    let v = reply_of(
        r#"{"type":"request","seq_id":3,"payload":{"action":"custom_command","command_name":null}}"#,
        &mut state,
    );
    assert_eq!(v["payload"]["message"], Value::from("missing command_name field"));
}

#[test]
fn undecodable_line_is_answered_to_zero() {
    let mut state = AppState::new();
    let v = reply_of("garbage", &mut state);
    assert_eq!(v["seq_id"], Value::from(0u64));
    assert_eq!(v["payload"]["success"], Value::Bool(false));
    assert_eq!(v["payload"]["message"], Value::from("malformed message"));
    assert_eq!(state.get_bg_color(), BackgroundColor::White);
}

#[test]
fn malformed_line_keeps_a_readable_seq_id() {
    let mut state = AppState::new();
    let v = reply_of(r#"{"seq_id":77,"payload":{}}"#, &mut state);
    assert_eq!(v["seq_id"], Value::from(77u64));
    assert_eq!(v["payload"]["message"], Value::from("malformed message"));
}

#[test]
fn validate_reports_each_error() {
    let msg = |p: &str| AcpMessage {
        message_type: "request".to_string(),
        seq_id: 1,
        payload: serde_json::from_str(p).unwrap(),
    };
    assert_eq!(
        validate_request(&msg(r#"{"action":"custom_command","command_name":"CYCLE_COLOR"}"#)),
        Ok(agentkit::color::AppAction::CycleColor)
    );
    assert_eq!(
        validate_request(&msg(r#"{"action":"custom_command"}"#)),
        Err(AcpError::MissingField(RequestField::CommandName))
    );
    assert_eq!(
        validate_request(&msg(r#"{"action":"custom_command","command_name":"X"}"#)),
        Err(AcpError::UnknownCommand)
    );
}

#[test]
fn dispatch_changes_state_only_on_success() {
    let mut state = AppState::new();
    let bad = AcpMessage {
        message_type: "request".to_string(),
        seq_id: 1,
        payload: serde_json::from_str(r#"{"action":"custom_command","command_name":"NOPE"}"#).unwrap(),
    };
    let p = dispatch(&bad, &mut state);
    assert!(!p.success);
    assert_eq!(p.message, "unknown command");
    assert_eq!(state.get_bg_color(), BackgroundColor::White);
}

#[test]
fn error_response_shape() {
    let m = error_response(12, AcpError::UnsupportedAction);
    assert_eq!(m.message_type, "response");
    assert_eq!(m.seq_id, 12);
    assert_eq!(m.payload["success"], Value::Bool(false));
    assert_eq!(m.payload["message"], Value::from("unsupported action type"));
}
