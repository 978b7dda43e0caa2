use agentkit::client::{fresh_seq_id, read_response, request_line, request_message, ACP_ADDRESS};
use agentkit::color::{AppState, BackgroundColor};
use agentkit::protocol::AcpError;
use agentkit::server::handle_request_line;
use agentkit::session::{
    classify_input, launch_mode, read_choice, InputChoice, LaunchMode, LoopAction, LoopEvent,
    SendLoop,
};
use serde_json::Value;

#[test]
fn request_line_has_the_wire_shape() {
    let line = request_line(42, "CYCLE_COLOR");
    assert!(line.ends_with('\n'));
    let v: Value = serde_json::from_str(line.trim_end()).unwrap();
    assert_eq!(v["type"], Value::from("request"));
    assert_eq!(v["seq_id"], Value::from(42u64));
    assert_eq!(v["payload"]["action"], Value::from("custom_command"));
    assert_eq!(v["payload"]["command_name"], Value::from("CYCLE_COLOR"));
    assert_eq!(v["payload"]["element_id"], Value::Null);
    assert_eq!(v["payload"]["target_query"], Value::Null);
    assert_eq!(v["payload"]["params"], Value::Null);
}

#[test]
fn request_message_fields() {
    let m = request_message(8, "BOGUS");
    assert_eq!(m.message_type, "request");
    assert_eq!(m.seq_id, 8);
    assert_eq!(m.payload["command_name"], Value::from("BOGUS"));
}

#[test]
fn full_exchange_succeeds() {
    let mut state = AppState::new();
    let seq = fresh_seq_id();
    let reply = handle_request_line(&request_line(seq, "CYCLE_COLOR"), &mut state);
    let p = read_response(seq, &reply).unwrap();
    assert!(p.success);
    assert!(p.message.contains("Light Blue"));
    assert_eq!(state.get_bg_color(), BackgroundColor::LightBlue);
}

#[test]
fn mismatched_seq_id_is_a_correlation_error() {
    let mut state = AppState::new();
    let reply = handle_request_line(&request_line(1, "CYCLE_COLOR"), &mut state);
    assert_eq!(read_response(2, &reply).err(), Some(AcpError::CorrelationError));
}

#[test]
fn unreadable_reply_is_malformed() {
    assert_eq!(read_response(1, "").err(), Some(AcpError::MalformedMessage));
    assert_eq!(read_response(1, "{}").err(), Some(AcpError::MalformedMessage));
}

#[test]
fn reply_without_payload_fields_is_a_payload_error() {
    let line = r#"{"type":"response","seq_id":4,"payload":{"ok":true}}"#;
    assert_eq!(read_response(4, line).err(), Some(AcpError::PayloadDecodeError));
}

#[test]
fn reconnect_after_closed_connection() {
    let mut lp = SendLoop::new(true);
    assert_eq!(lp.step(LoopEvent::CommandIssued), LoopAction::SendRequest);
    assert_eq!(lp.step(LoopEvent::ExchangeFinished), LoopAction::AwaitCaller);
    assert!(!lp.is_connected());
    assert_eq!(lp.step(LoopEvent::CommandIssued), LoopAction::OpenConnection);
    assert_eq!(lp.address(), ACP_ADDRESS);
    assert_eq!(lp.step(LoopEvent::ConnectSucceeded), LoopAction::SendRequest);
    assert!(lp.is_connected());
}

#[test]
fn connect_failure_goes_to_the_caller() {
    let mut lp = SendLoop::new(false);
    assert_eq!(lp.step(LoopEvent::CommandIssued), LoopAction::OpenConnection);
    assert_eq!(lp.step(LoopEvent::ConnectFailed), LoopAction::ReportConnectFailure);
    assert_eq!(lp.step(LoopEvent::CommandIssued), LoopAction::OpenConnection);
}

#[test]
fn prompt_lines() {
    assert_eq!(classify_input("quit", true), InputChoice::Quit);
    assert_eq!(classify_input("QuIt", false), InputChoice::Quit);
    assert_eq!(classify_input("", true), InputChoice::Transcribe);
    assert_eq!(classify_input("", false), InputChoice::AskManual);
    assert_eq!(classify_input("change the color", true), InputChoice::Text);
    assert_eq!(classify_input("quite", true), InputChoice::Text);
}

#[test]
fn prompt_lines_are_trimmed() {
    assert_eq!(read_choice("  quit \n", true), InputChoice::Quit);
    assert_eq!(read_choice(" \n", false), InputChoice::AskManual);
    assert_eq!(read_choice(" blue\n", false), InputChoice::Text);
}

#[test]
fn launcher_arguments() {
    let args = |a: &[&str]| a.iter().map(|s| s.to_string()).collect::<Vec<String>>();
    assert_eq!(launch_mode(&args(&["agentkit"])), LaunchMode::Script);
    assert_eq!(launch_mode(&args(&["agentkit", "--help"])), LaunchMode::Help);
    assert_eq!(launch_mode(&args(&["agentkit", "-h"])), LaunchMode::Help);
    assert_eq!(launch_mode(&args(&["agentkit", "--separate"])), LaunchMode::Separate);
    assert_eq!(launch_mode(&args(&["agentkit", "--build"])), LaunchMode::Script);
}
