//! The controller's decisions: when to open a fresh connection, and what a
//! line typed at the prompt asks for.
use vstd::prelude::*;
use crate::client::ACP_ADDRESS;
use crate::intent::{same_text, trim_text, trimmed};

verus! {

/// What happened since the send loop last decided.
#[derive(Debug, Clone, Copy, PartialEq, Eq, Structural)]
pub enum LoopEvent {
    /// The caller wants a command sent.
    CommandIssued,
    /// A connection to the server was established.
    ConnectSucceeded,
    /// Establishing a connection failed.
    ConnectFailed,
    /// A request/reply exchange ended, successfully or not.
    ExchangeFinished,
}

/// What the send loop asks its driver to do next.
#[derive(Debug, Clone, Copy, PartialEq, Eq, Structural)]
pub enum LoopAction {
    /// Open a fresh connection to the fixed address.
    OpenConnection,
    /// Send the pending request on the current connection.
    SendRequest,
    /// Tell the caller that no connection could be had for this attempt.
    ReportConnectFailure,
    /// Hand control back to the caller.
    AwaitCaller,
}

/// The send loop's decision: whether a usable connection is held afterwards,
/// and the action to take.
pub open spec fn loop_step(connected: bool, event: LoopEvent) -> (bool, LoopAction) {
    match event {
        LoopEvent::CommandIssued => if connected {
            (true, LoopAction::SendRequest)
        } else {
            (false, LoopAction::OpenConnection)
        },
        LoopEvent::ConnectSucceeded => (true, LoopAction::SendRequest),
        LoopEvent::ConnectFailed => (false, LoopAction::ReportConnectFailure),
        LoopEvent::ExchangeFinished => (false, LoopAction::AwaitCaller),
    }
}

/// The reconnecting send loop. The server answers one request per connection,
/// so a connection is spent once an exchange on it has ended, and the next
/// command opens a fresh one to the fixed address. A failed command is not
/// sent again on its own: the failure goes back to the caller.
pub struct SendLoop {
    connected: bool,
}

impl View for SendLoop {
    type V = bool;

    closed spec fn view(&self) -> bool {
        self.connected
    }
}

impl SendLoop {
    /// A send loop that holds a usable connection or not.
    pub fn new(connected: bool) -> (r: Self)
        ensures
            r@ == connected,
    {
        SendLoop { connected }
    }

    /// Whether a usable connection is held.
    pub fn is_connected(&self) -> (r: bool)
        ensures
            r == self@,
    {
        self.connected
    }

    /// The address that every connection is opened to.
    pub fn address(&self) -> (r: &'static str)
        ensures
            r@ == ACP_ADDRESS@,
    {
        ACP_ADDRESS
    }

    /// Takes in one event and decides the next action.
    pub fn step(&mut self, event: LoopEvent) -> (r: LoopAction)
        ensures
            (final(self)@, r) == loop_step(old(self)@, event),
    {
        match event {
            LoopEvent::CommandIssued => if self.connected {
                LoopAction::SendRequest
            } else {
                LoopAction::OpenConnection
            },
            LoopEvent::ConnectSucceeded => {
                self.connected = true;
                LoopAction::SendRequest
            },
            LoopEvent::ConnectFailed => {
                self.connected = false;
                LoopAction::ReportConnectFailure
            },
            LoopEvent::ExchangeFinished => {
                self.connected = false;
                LoopAction::AwaitCaller
            },
        }
    }
}

/// After any exchange, whatever became of the old connection, the next
/// command opens a new connection and, once it is up, sends its request on it.
pub proof fn lemma_reconnect_after_exchange(connected: bool)
    ensures
        ({
            let (s1, _a1) = loop_step(connected, LoopEvent::ExchangeFinished);
            let (s2, a2) = loop_step(s1, LoopEvent::CommandIssued);
            let (s3, a3) = loop_step(s2, LoopEvent::ConnectSucceeded);
            a2 == LoopAction::OpenConnection && a3 == LoopAction::SendRequest && s3
        }),
{
}

/// A failure to connect is reported to the caller, and the next command tries
/// to connect again.
pub proof fn lemma_connect_failure_reported(connected: bool)
    ensures
        ({
            let (s1, a1) = loop_step(connected, LoopEvent::ConnectFailed);
            let (_s2, a2) = loop_step(s1, LoopEvent::CommandIssued);
            a1 == LoopAction::ReportConnectFailure && a2 == LoopAction::OpenConnection
        }),
{
}

/// What a line typed at the controller's prompt asks for.
#[derive(Debug, Clone, Copy, PartialEq, Eq, Structural)]
pub enum InputChoice {
    /// Leave the controller.
    Quit,
    /// Record speech and transcribe it.
    Transcribe,
    /// Speech is not available: ask for the command as text.
    AskManual,
    /// The line itself is the command text.
    Text,
}

/// `t` is the word quit, in any mix of ASCII cases.
pub open spec fn is_quit(t: Seq<char>) -> bool {
    &&& t.len() == 4
    &&& (t[0] == 'q' || t[0] == 'Q')
    &&& (t[1] == 'u' || t[1] == 'U')
    &&& (t[2] == 'i' || t[2] == 'I')
    &&& (t[3] == 't' || t[3] == 'T')
}

/// What a trimmed prompt line asks for.
pub open spec fn input_choice(t: Seq<char>, voice_available: bool) -> InputChoice {
    if is_quit(t) {
        InputChoice::Quit
    } else if t.len() == 0 {
        if voice_available {
            InputChoice::Transcribe
        } else {
            InputChoice::AskManual
        }
    } else {
        InputChoice::Text
    }
}

/// What a trimmed prompt line asks for: quit in any case leaves, an empty
/// line asks for speech where it is available, anything else is command text.
pub fn classify_input(t: &str, voice_available: bool) -> (r: InputChoice)
    ensures
        r == input_choice(t@, voice_available),
{
    let n = t.unicode_len();
    let quit = n == 4 && {
        let a = t.get_char(0);
        let b = t.get_char(1);
        let c = t.get_char(2);
        let d = t.get_char(3);
        (a == 'q' || a == 'Q') && (b == 'u' || b == 'U') && (c == 'i' || c == 'I') && (d == 't'
            || d == 'T')
    };
    if quit {
        InputChoice::Quit
    } else if n == 0 {
        if voice_available {
            InputChoice::Transcribe
        } else {
            InputChoice::AskManual
        }
    } else {
        InputChoice::Text
    }
}

/// What a raw prompt line asks for, surrounding whitespace ignored.
pub fn read_choice(line: &str, voice_available: bool) -> (r: InputChoice)
    ensures
        r == input_choice(trimmed(line@), voice_available),
{
    classify_input(trim_text(line), voice_available)
}

/// How the launcher was asked to start.
#[derive(Debug, Clone, Copy, PartialEq, Eq, Structural)]
pub enum LaunchMode {
    /// Print the usage text.
    Help,
    /// Explain how to start the two processes by hand.
    Separate,
    /// Run the start script with the remaining arguments.
    Script,
}

/// The launch mode that the arguments (program name first) ask for.
pub open spec fn launch_spec(args: Seq<Seq<char>>) -> LaunchMode {
    if args.len() > 1 && (args[1] == "--help"@ || args[1] == "-h"@) {
        LaunchMode::Help
    } else if args.len() > 1 && args[1] == "--separate"@ {
        LaunchMode::Separate
    } else {
        LaunchMode::Script
    }
}

/// The launch mode that the command-line arguments (program name first) ask for.
pub fn launch_mode(args: &Vec<String>) -> (r: LaunchMode)
    ensures
        r == launch_spec(args@.map_values(|a: String| a@)),
{
    let ghost v = args@.map_values(|a: String| a@);
    if args.len() > 1 {
        assert(v[1] == args@[1]@);
        let first = args[1].as_str();
        if same_text(first, "--help") || same_text(first, "-h") {
            return LaunchMode::Help;
        }
        if same_text(first, "--separate") {
            return LaunchMode::Separate;
        }
    }
    LaunchMode::Script
}

} // verus!
