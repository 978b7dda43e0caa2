//! Intent resolution: the chat request that asks a language model which
//! command a transcription means, and the reading of its answer.
use vstd::prelude::*;

verus! {

/// One message of a chat exchange.
pub struct ChatMessage {
    pub role: String,
    pub content: String,
}

/// A chat completion request: the model and the conversation so far.
pub struct ChatCompletionRequest {
    pub model: String,
    pub messages: Vec<ChatMessage>,
}

/// One answer offered by the model.
pub struct ChatChoice {
    pub message: ChatMessage,
}

/// The model's answers, best first.
pub struct ChatCompletionResponse {
    pub choices: Vec<ChatChoice>,
}

/// The closed set of intents that the controller acts on.
#[derive(Debug, Clone, Copy, PartialEq, Eq, Structural)]
pub enum CommandIntent {
    CycleColor,
    Unknown,
}

/// The speakers of a chat that a model takes messages from.
#[derive(Debug, Clone, Copy, PartialEq, Eq, Structural)]
pub enum ChatRole {
    System,
    User,
    Assistant,
}

/// The model asked to resolve intents.
pub const INTENT_MODEL: &'static str = "gpt-3.5-turbo";

/// The token the model answers with when the user wants the color changed.
pub const CYCLE_COLOR_TOKEN: &'static str = "CYCLE_COLOR_COMMAND";

/// The instructions that frame every intent request.
pub const SYSTEM_PROMPT: &'static str = "You are an AI assistant helping the user control a desktop application.
The application has a button that cycles the background color when clicked.
If the user's spoken command (the transcribed text) shows the intent to change the background color or to click this button,
output only the command string 'CYCLE_COLOR_COMMAND'.
Add no other text, explanation or pleasantries. Only the command string.
If the user's intent is unclear or unrelated, output 'UNKNOWN_COMMAND'.";

/// What `str::trim` leaves of a text.
pub uninterp spec fn trimmed(s: Seq<char>) -> Seq<char>;

/// Relies on `str::trim`: the text without leading and trailing whitespace.
#[verifier::external_body]
pub(crate) fn trim_text(s: &str) -> (r: &str)
    ensures
        r@ == trimmed(s@),
{
    s.trim()
}

/// `a` and `b` hold the same text.
pub(crate) fn same_text(a: &str, b: &str) -> (r: bool)
    ensures
        r == (a@ == b@),
{
    let x = a.to_owned();
    let y = b.to_owned();
    x == y
}

/// The chat request that asks the model which command `transcription` means.
pub fn intent_request(transcription: &str) -> (r: ChatCompletionRequest)
    ensures
        r.model@ == INTENT_MODEL@,
        r.messages@.len() == 2,
        r.messages@[0].role@ == "system"@,
        r.messages@[0].content@ == SYSTEM_PROMPT@,
        r.messages@[1].role@ == "user"@,
        r.messages@[1].content@ == transcription@,
{
    let system = ChatMessage { role: "system".to_owned(), content: SYSTEM_PROMPT.to_owned() };
    let user = ChatMessage { role: "user".to_owned(), content: transcription.to_owned() };
    ChatCompletionRequest { model: INTENT_MODEL.to_owned(), messages: vec![system, user] }
}

/// The intent that a trimmed answer of the model names; anything but the
/// color token is unknown.
pub open spec fn intent_of_reply(reply: Seq<char>) -> CommandIntent {
    if reply == CYCLE_COLOR_TOKEN@ {
        CommandIntent::CycleColor
    } else {
        CommandIntent::Unknown
    }
}

/// The intent that a trimmed answer of the model names.
pub fn intent_from_reply(reply: &str) -> (r: CommandIntent)
    ensures
        r == intent_of_reply(reply@),
{
    if same_text(reply, CYCLE_COLOR_TOKEN) {
        CommandIntent::CycleColor
    } else {
        CommandIntent::Unknown
    }
}

/// The intent of the model's first answer, with surrounding whitespace
/// ignored; with no answer at all the intent is unknown.
pub fn intent_from_response(response: &ChatCompletionResponse) -> (r: CommandIntent)
    ensures
        response.choices@.len() == 0 ==> r == CommandIntent::Unknown,
        response.choices@.len() > 0 ==> r == intent_of_reply(
            trimmed(response.choices@[0].message.content@),
        ),
{
    if response.choices.len() == 0 {
        CommandIntent::Unknown
    } else {
        let reply = trim_text(response.choices[0].message.content.as_str());
        intent_from_reply(reply)
    }
}

/// The protocol command that carries out an intent, if any does.
pub fn command_for_intent(intent: CommandIntent) -> (r: Option<&'static str>)
    ensures
        intent == CommandIntent::CycleColor ==> r is Some && r->Some_0@ == "CYCLE_COLOR"@,
        intent == CommandIntent::Unknown ==> r is None,
{
    match intent {
        CommandIntent::CycleColor => Some("CYCLE_COLOR"),
        CommandIntent::Unknown => None,
    }
}

/// The role that a role name stands for; other names are not passed on.
pub open spec fn role_spec(name: Seq<char>) -> Option<ChatRole> {
    if name == "system"@ {
        Some(ChatRole::System)
    } else if name == "user"@ {
        Some(ChatRole::User)
    } else if name == "assistant"@ {
        Some(ChatRole::Assistant)
    } else {
        None
    }
}

/// The role that a role name stands for.
pub fn role_of(name: &str) -> (r: Option<ChatRole>)
    ensures
        r == role_spec(name@),
{
    if same_text(name, "system") {
        Some(ChatRole::System)
    } else if same_text(name, "user") {
        Some(ChatRole::User)
    } else if same_text(name, "assistant") {
        Some(ChatRole::Assistant)
    } else {
        None
    }
}

/// A chat message as role name and content.
pub open spec fn message_view(m: ChatMessage) -> (Seq<char>, Seq<char>) {
    (m.role@, m.content@)
}

/// The messages handed to the model: those whose role it knows, in order.
pub open spec fn outgoing_spec(msgs: Seq<(Seq<char>, Seq<char>)>) -> Seq<(ChatRole, Seq<char>)>
    decreases msgs.len(),
{
    if msgs.len() == 0 {
        seq![]
    } else {
        let rest = outgoing_spec(msgs.drop_last());
        match role_spec(msgs.last().0) {
            Some(role) => rest.push((role, msgs.last().1)),
            None => rest,
        }
    }
}

/// The messages of a request that a model can take, each with its role, in
/// the order given; messages with an unknown role are skipped.
pub fn outgoing_messages(request: &ChatCompletionRequest) -> (r: Vec<(ChatRole, String)>)
    ensures
        r@.map_values(|e: (ChatRole, String)| (e.0, e.1@)) == outgoing_spec(
            request.messages@.map_values(|m: ChatMessage| message_view(m)),
        ),
{
    let ghost msgs = request.messages@.map_values(|m: ChatMessage| message_view(m));
    let mut out: Vec<(ChatRole, String)> = Vec::new();
    let mut i: usize = 0;
    while i < request.messages.len()
        invariant
            i <= request.messages@.len(),
            msgs == request.messages@.map_values(|m: ChatMessage| message_view(m)),
            out@.map_values(|e: (ChatRole, String)| (e.0, e.1@)) == outgoing_spec(
                msgs.take(i as int),
            ),
        decreases request.messages@.len() - i,
    {
        let m = &request.messages[i];
        assert(msgs.take(i + 1).drop_last() =~= msgs.take(i as int));
        assert(msgs.take(i + 1).last() == message_view(*m));
        match role_of(m.role.as_str()) {
            Some(role) => {
                out.push((role, m.content.clone()));
                assert(out@.map_values(|e: (ChatRole, String)| (e.0, e.1@)) =~= outgoing_spec(
                    msgs.take(i as int),
                ).push((role, m.content@)));
            },
            None => {},
        }
        i = i + 1;
    }
    assert(msgs.take(i as int) =~= msgs);
    out
}

} // verus!
