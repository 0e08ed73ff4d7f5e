use vstd::prelude::*;

use crate::errors::AdapterError;

verus! {

/// Wire shapes for the chat-completions endpoint.  Building the request body
/// and reading the parsed reply are decided and proved here; the transport
/// layer owns the HTTP call and the byte-level encoding.
pub struct ChatRequest {
    pub model: String,
    pub messages: Vec<Message>,
}

pub struct Message {
    pub role: String,
    pub content: String,
}

pub struct ChatResponse {
    pub choices: Vec<Choice>,
}

pub struct Choice {
    pub message: Message,
}

/// The two-message request body: a fixed system turn, then the prompt as the
/// user turn.
pub fn grok_request(prompt: &str, model: &str) -> (r: ChatRequest)
    ensures
        r.model@ == model@,
        r.messages@.len() == 2,
        r.messages@[0].role@ == "system"@,
        r.messages@[0].content@ == "You are a helpful assistant."@,
        r.messages@[1].role@ == "user"@,
        r.messages@[1].content@ == prompt@,
{
    let mut messages: Vec<Message> = Vec::new();
    messages.push(
        Message { role: "system".to_owned(), content: "You are a helpful assistant.".to_owned() },
    );
    messages.push(Message { role: "user".to_owned(), content: prompt.to_owned() });
    ChatRequest { model: model.to_owned(), messages }
}

/// The reply text: the first choice's message content, or the shape fault
/// when the backend returned no choice.
pub fn grok_extract(res: &ChatResponse) -> (r: Result<String, AdapterError>)
    ensures
        res.choices@.len() > 0 ==> (r matches Ok(t) && t@ == res.choices@[0].message.content@),
        res.choices@.len() == 0 ==> (r matches Err(e) && e == AdapterError::InvalidResponse),
{
    if res.choices.len() > 0 {
        Ok(res.choices[0].message.content.clone())
    } else {
        Err(AdapterError::InvalidResponse)
    }
}

} // verus!
