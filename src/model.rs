//! The records exchanged with the completion service and the document store,
//! and the configuration shared by every pipeline.
use vstd::prelude::*;

verus! {

/// One turn of a conversation: who spoke (`"user"` or `"assistant"`) and what was said.
#[derive(Default, Debug, Clone, PartialEq)]
pub struct Message {
    pub role: String,
    pub content: String,
}

/// The role and content of a message, as character sequences.
pub open spec fn message_view(m: Message) -> (Seq<char>, Seq<char>) {
    (m.role@, m.content@)
}

/// The role and content of each message, in order.
pub open spec fn messages_view(ms: Seq<Message>) -> Seq<(Seq<char>, Seq<char>)> {
    ms.map_values(|m: Message| message_view(m))
}

/// The role of a message that a user wrote.
pub open spec fn user_role() -> Seq<char> {
    seq!['u', 's', 'e', 'r']
}

/// The role of a message that the completion service wrote.
pub open spec fn assistant_role() -> Seq<char> {
    seq!['a', 's', 's', 'i', 's', 't', 'a', 'n', 't']
}

/// Token counts reported by the completion service.
#[derive(Default, Debug, Clone, PartialEq)]
pub struct Usage {
    pub prompt_tokens: i64,
    pub completion_tokens: i64,
    pub total_tokens: i64,
}

/// One candidate answer of the completion service.
#[derive(Default, Debug, Clone, PartialEq)]
pub struct Choice {
    pub index: i64,
    pub message: Message,
    pub finish_reason: String,
}

/// The body of a completion response.
#[derive(Default, Debug, Clone, PartialEq)]
pub struct ChatCompletionResponse {
    pub id: String,
    pub object: String,
    pub created: i64,
    pub choices: Vec<Choice>,
    pub usage: Usage,
}

/// The body of a completion request.
#[derive(Default, Debug, Clone, PartialEq)]
pub struct ChatCompletionRequest {
    pub model: String,
    pub messages: Vec<Message>,
}

/// A stored conversation: `id` is the anchor, the identifier of the bot's reply
/// that continues it; `messages` is its history in order.
#[derive(Default, Debug, Clone, PartialEq)]
pub struct ChatDocument {
    pub id: String,
    pub messages: Vec<Message>,
}

/// A named prompt snippet: `prompt_id` is its name, `prompt` its text.
#[derive(Default, Debug, Clone, PartialEq)]
pub struct PromptDocument {
    pub prompt_id: String,
    pub prompt: String,
}

/// What every pipeline shares, read only: the bot's name and identifier and the
/// prompt snippets loaded at startup.
#[derive(Default, Debug, Clone, PartialEq)]
pub struct AppData {
    pub username: String,
    pub bot_id: u64,
    pub all_prompts: Vec<PromptDocument>,
}

} // verus!
