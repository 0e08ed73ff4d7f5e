use vstd::prelude::*;

use crate::errors::AdapterError;

verus! {

/// Wire shapes for the Gemini-style generate-content endpoint.  Building the
/// request body and reading the parsed reply are decided and proved here; the
/// transport layer owns the HTTP call and the byte-level encoding.
pub struct GeminiRequest {
    pub contents: Vec<GeminiContent>,
}

pub struct GeminiContent {
    pub parts: Vec<GeminiPart>,
}

pub struct GeminiPart {
    pub text: String,
}

pub struct GeminiResponse {
    pub candidates: Vec<Candidate>,
}

pub struct Candidate {
    pub content: GeminiContent,
}

/// The request body: the prompt as the single part of a single content.
pub fn gemini_request(prompt: &str) -> (r: GeminiRequest)
    ensures
        r.contents@.len() == 1,
        r.contents@[0].parts@.len() == 1,
        r.contents@[0].parts@[0].text@ == prompt@,
{
    let mut parts: Vec<GeminiPart> = Vec::new();
    parts.push(GeminiPart { text: prompt.to_owned() });
    let mut contents: Vec<GeminiContent> = Vec::new();
    contents.push(GeminiContent { parts });
    GeminiRequest { contents }
}

/// The reply text: the first part of the first candidate, or the shape fault
/// when either level is empty.
pub fn gemini_extract(res: &GeminiResponse) -> (r: Result<String, AdapterError>)
    ensures
        res.candidates@.len() > 0 && res.candidates@[0].content.parts@.len() > 0 ==> (r matches Ok(
            t,
        ) && t@ == res.candidates@[0].content.parts@[0].text@),
        res.candidates@.len() == 0 || res.candidates@[0].content.parts@.len() == 0 ==> (r matches Err(
            e,
        ) && e == AdapterError::InvalidResponse),
{
    if res.candidates.len() > 0 && res.candidates[0].content.parts.len() > 0 {
        Ok(res.candidates[0].content.parts[0].text.clone())
    } else {
        Err(AdapterError::InvalidResponse)
    }
}

} // verus!
