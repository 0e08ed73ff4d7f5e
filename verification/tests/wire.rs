use llm_gateway::claud::{claude_extract, claude_request, ClaudeResponse, ContentBlock};
use llm_gateway::errors::AdapterError;
use llm_gateway::gemini::{gemini_extract, gemini_request, Candidate, GeminiContent, GeminiPart, GeminiResponse};
use llm_gateway::grok::{grok_extract, grok_request, ChatResponse, Choice, Message};
use llm_gateway::tavily::{tavily_request, tavily_summary, SearchResponse, SearchResult};

#[test]
fn claude_request_is_one_user_turn() {
    let r = claude_request("say hello", "m-large");
    assert_eq!(r.model, "m-large");
    assert_eq!(r.max_tokens, 1024);
    assert_eq!(r.messages.len(), 1);
    assert_eq!(r.messages[0].role, "user");
    assert_eq!(r.messages[0].content, "say hello");
}

#[test]
fn claude_extract_takes_first_block() {
    let res = ClaudeResponse {
        content: vec![
            ContentBlock { text: "first".to_string() },
            ContentBlock { text: "second".to_string() },
        ],
    };
    assert_eq!(claude_extract(&res).unwrap(), "first");
}

#[test]
fn claude_extract_rejects_empty_content() {
    let res = ClaudeResponse { content: Vec::new() };
    assert_eq!(claude_extract(&res).unwrap_err(), AdapterError::InvalidResponse);
}

#[test]
fn gemini_request_wraps_prompt_once() {
    let r = gemini_request("ping");
    assert_eq!(r.contents.len(), 1);
    assert_eq!(r.contents[0].parts.len(), 1);
    assert_eq!(r.contents[0].parts[0].text, "ping");
}

#[test]
fn gemini_extract_takes_first_part_of_first_candidate() {
    let res = GeminiResponse {
        candidates: vec![Candidate {
            content: GeminiContent {
                parts: vec![GeminiPart { text: "pong".to_string() }],
            },
        }],
    };
    assert_eq!(gemini_extract(&res).unwrap(), "pong");
}

#[test]
fn gemini_extract_rejects_empty_levels() {
    let no_candidates = GeminiResponse { candidates: Vec::new() };
    assert_eq!(gemini_extract(&no_candidates).unwrap_err(), AdapterError::InvalidResponse);
    let no_parts = GeminiResponse {
        candidates: vec![Candidate { content: GeminiContent { parts: Vec::new() } }],
    };
    assert_eq!(gemini_extract(&no_parts).unwrap_err(), AdapterError::InvalidResponse);
}

#[test]
fn grok_request_has_system_then_user_turn() {
    let r = grok_request("what time is it", "grok-1");
    assert_eq!(r.model, "grok-1");
    assert_eq!(r.messages.len(), 2);
    assert_eq!(r.messages[0].role, "system");
    assert_eq!(r.messages[0].content, "You are a helpful assistant.");
    assert_eq!(r.messages[1].role, "user");
    assert_eq!(r.messages[1].content, "what time is it");
}

#[test]
fn grok_extract_takes_first_choice() {
    let res = ChatResponse {
        choices: vec![Choice {
            message: Message { role: "assistant".to_string(), content: "late".to_string() },
        }],
    };
    assert_eq!(grok_extract(&res).unwrap(), "late");
}

#[test]
fn grok_extract_rejects_empty_choices() {
    let res = ChatResponse { choices: Vec::new() };
    assert_eq!(grok_extract(&res).unwrap_err(), AdapterError::InvalidResponse);
}

#[test]
fn tavily_request_uses_basic_depth() {
    let r = tavily_request("key-123", "rust verification");
    assert_eq!(r.api_key, "key-123");
    assert_eq!(r.query, "rust verification");
    assert_eq!(r.search_depth, "basic");
}

fn search_result(title: &str, content: &str) -> SearchResult {
    SearchResult {
        title: title.to_string(),
        url: "https://example.test".to_string(),
        content: content.to_string(),
    }
}

#[test]
fn tavily_summary_joins_first_three_results() {
    let res = SearchResponse {
        results: vec![
            search_result("T1", "C1"),
            search_result("T2", "C2"),
            search_result("T3", "C3"),
            search_result("T4", "C4"),
        ],
    };
    assert_eq!(tavily_summary(&res), "T1: C1\nT2: C2\nT3: C3");
}

#[test]
fn tavily_summary_of_fewer_results() {
    let res = SearchResponse { results: vec![search_result("Only", "One")] };
    assert_eq!(tavily_summary(&res), "Only: One");
}

#[test]
fn tavily_summary_of_no_results_is_empty() {
    let res = SearchResponse { results: Vec::new() };
    assert_eq!(tavily_summary(&res), "");
}
