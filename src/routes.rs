//! Request and response shapes of the HTTP interface.
use vstd::prelude::*;
use crate::chat;
use crate::conversation::Message;

verus! {

/// Direct model access: a whole message list.
pub struct LegacyChatRequest {
    pub messages: Vec<Message>,
    pub provider: String,
    pub model: String,
}

/// A turn with tool support.
pub struct ChatRequest {
    pub message: String,
    pub conversation_id: Option<String>,
    /// A system prompt that takes precedence over any persona.
    pub system_prompt: Option<String>,
    pub persona: Option<String>,
    pub provider: String,
    pub model: String,
}

/// The answer of direct model access.
pub struct LegacyChatResponse {
    pub message: Message,
    pub usage: Option<Usage>,
}

/// The answer to a turn.
pub struct ChatResponse {
    pub message: String,
    pub conversation_id: String,
    /// The tools called during the turn, in order.
    pub tools_used: Vec<String>,
}

/// Token usage of a model call.
pub struct Usage {
    pub prompt_tokens: u32,
    pub completion_tokens: u32,
}

impl ChatRequest {
    /// The engine's request for this HTTP request.
    pub fn into_engine(self) -> (r: chat::ChatRequest)
        ensures
            r.message == self.message,
            r.conversation_id == self.conversation_id,
            r.system_prompt == self.system_prompt,
            r.persona == self.persona,
            r.provider == self.provider,
            r.model == self.model,
    {
        chat::ChatRequest {
            message: self.message,
            conversation_id: self.conversation_id,
            system_prompt: self.system_prompt,
            persona: self.persona,
            provider: self.provider,
            model: self.model,
        }
    }
}

impl ChatResponse {
    /// The HTTP answer for the engine's answer: the tools used are named in call order.
    pub fn from_engine(response: chat::ChatResponse) -> (r: Self)
        ensures
            r.message == response.message,
            r.conversation_id == response.conversation_id,
            r.tools_used@.len() == response.tool_calls@.len(),
            forall|i: int| 0 <= i < r.tools_used@.len() ==> (#[trigger] r.tools_used@[i]) == response.tool_calls@[i].name,
    {
        let mut names: Vec<String> = Vec::new();
        let mut i: usize = 0;
        while i < response.tool_calls.len()
            invariant
                i <= response.tool_calls@.len(),
                names@.len() == i,
                forall|j: int| 0 <= j < i ==> (#[trigger] names@[j]) == response.tool_calls@[j].name,
            decreases response.tool_calls@.len() - i,
        {
            names.push(response.tool_calls[i].name.clone());
            i = i + 1;
        }
        ChatResponse {
            message: response.message,
            conversation_id: response.conversation_id,
            tools_used: names,
        }
    }
}

} // verus!
