use vstd::prelude::*;

use crate::errors::AdapterError;

verus! {

/// Wire shapes for the messages-API chat provider.  Building the request
/// body and reading the parsed reply are decided and proved here; the
/// transport layer owns the HTTP call and the byte-level encoding.
pub struct ClaudeRequest {
    pub model: String,
    pub max_tokens: u32,
    pub messages: Vec<ClaudeMessage>,
}

pub struct ClaudeMessage {
    pub role: String,
    pub content: String,
}

pub struct ClaudeResponse {
    pub content: Vec<ContentBlock>,
}

pub struct ContentBlock {
    pub text: String,
}

/// The one-message request body: the prompt as a single user turn.
pub fn claude_request(prompt: &str, model: &str) -> (r: ClaudeRequest)
    ensures
        r.model@ == model@,
        r.max_tokens == 1024,
        r.messages@.len() == 1,
        r.messages@[0].role@ == "user"@,
        r.messages@[0].content@ == prompt@,
{
    let mut messages: Vec<ClaudeMessage> = Vec::new();
    messages.push(ClaudeMessage { role: "user".to_owned(), content: prompt.to_owned() });
    ClaudeRequest { model: model.to_owned(), max_tokens: 1024, messages }
}

/// The reply text: the first content block's text, or the shape fault when
/// the backend returned no usable content.
pub fn claude_extract(res: &ClaudeResponse) -> (r: Result<String, AdapterError>)
    ensures
        res.content@.len() > 0 ==> (r matches Ok(t) && t@ == res.content@[0].text@),
        res.content@.len() == 0 ==> (r matches Err(e) && e == AdapterError::InvalidResponse),
{
    if res.content.len() > 0 {
        Ok(res.content[0].text.clone())
    } else {
        Err(AdapterError::InvalidResponse)
    }
}

} // verus!
