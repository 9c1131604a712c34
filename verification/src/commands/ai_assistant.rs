//! AI assistant commands: chat and inline code completion.

use vstd::prelude::*;
use crate::clock::{now_millis, start_timer, elapsed_millis};

verus! {

#[derive(Debug, Clone, Copy, PartialEq, Eq, Structural)]
pub enum MessageRole {
    System,
    User,
    Assistant,
}

/// One message of a chat.
#[derive(Debug, Clone)]
pub struct ChatMessage {
    pub role: MessageRole,
    pub content: String,
    pub timestamp_ms: u64,
}

/// The assistant's answer to a chat.
#[derive(Debug, Clone)]
pub struct ChatResponse {
    pub session_id: String,
    pub reply: ChatMessage,
    pub tokens_used: u32,
    pub model: String,
    pub duration_ms: u64,
}

/// A request for an inline code completion.
#[derive(Debug, Clone)]
pub struct CompletionRequest {
    pub language: String,
    pub prefix: String,
    pub suffix: Option<String>,
    pub max_tokens: Option<u32>,
}

/// Completions for a code prefix.
#[derive(Debug, Clone)]
pub struct CompletionResponse {
    pub completions: Vec<String>,
    pub model: String,
    pub duration_ms: u64,
}

/// The assistant's greeting.
pub open spec fn greeting() -> Seq<char> {
    "I'm the NATLaB BUILDR26 AI assistant. How can I help?"@
}

/// The answer to a chat of session `session_id`: an empty history is
/// refused first, then a temperature outside 0.0..=2.0
/// (`temperature_accepted` is false); otherwise the greeting, sent at
/// `now_ms`, after `duration_ms`.
pub fn ai_chat_at(
    session_id: String,
    messages: &Vec<ChatMessage>,
    temperature_accepted: bool,
    now_ms: u64,
    duration_ms: u64,
) -> (r: Result<ChatResponse, String>)
    ensures
        messages@.len() == 0 ==> (r matches Err(e) && e@ == "Message history cannot be empty"@),
        messages@.len() > 0 && !temperature_accepted ==> (r matches Err(e)
            && e@ == "Temperature must be between 0.0 and 2.0"@),
        messages@.len() > 0 && temperature_accepted ==> (r matches Ok(c) && {
            &&& c.session_id@ == session_id@
            &&& c.reply.role == MessageRole::Assistant
            &&& c.reply.content@ == greeting()
            &&& c.reply.timestamp_ms == now_ms
            &&& c.tokens_used == 0
            &&& c.model@ == "natlab-assistant-v1"@
            &&& c.duration_ms == duration_ms
        }),
{
    if messages.len() == 0 {
        return Err(String::from_str("Message history cannot be empty"));
    }
    if !temperature_accepted {
        return Err(String::from_str("Temperature must be between 0.0 and 2.0"));
    }
    Ok(ChatResponse {
        session_id,
        reply: ChatMessage {
            role: MessageRole::Assistant,
            content: String::from_str("I'm the NATLaB BUILDR26 AI assistant. How can I help?"),
            timestamp_ms: now_ms,
        },
        tokens_used: 0,
        model: String::from_str("natlab-assistant-v1"),
        duration_ms,
    })
}

/// Sends a chat to the assistant, timing the answer and stamping it now.
pub fn ai_chat(session_id: String, messages: &Vec<ChatMessage>, temperature_accepted: bool) -> (r: Result<ChatResponse, String>)
    ensures
        messages@.len() == 0 ==> (r matches Err(e) && e@ == "Message history cannot be empty"@),
        messages@.len() > 0 && !temperature_accepted ==> (r matches Err(e)
            && e@ == "Temperature must be between 0.0 and 2.0"@),
        messages@.len() > 0 && temperature_accepted ==> (r matches Ok(c) && {
            &&& c.session_id@ == session_id@
            &&& c.reply.role == MessageRole::Assistant
            &&& c.reply.content@ == greeting()
            &&& c.tokens_used == 0
            &&& c.model@ == "natlab-assistant-v1"@
        }),
{
    let start = start_timer();
    let now = now_millis();
    let duration = elapsed_millis(&start);
    ai_chat_at(session_id, messages, temperature_accepted, now as u64, duration)
}

/// The completions for a code prefix, after `duration_ms`; an empty prefix is refused.
pub fn ai_complete_at(request: &CompletionRequest, duration_ms: u64) -> (r: Result<CompletionResponse, String>)
    ensures
        request.prefix@.len() == 0 ==> (r matches Err(e) && e@ == "Code prefix cannot be empty"@),
        request.prefix@.len() > 0 ==> (r matches Ok(c) && {
            &&& c.completions@.len() == 0
            &&& c.model@ == "natlab-codegen-v1"@
            &&& c.duration_ms == duration_ms
        }),
{
    if request.prefix.as_str().is_empty() {
        return Err(String::from_str("Code prefix cannot be empty"));
    }
    Ok(CompletionResponse {
        completions: Vec::new(),
        model: String::from_str("natlab-codegen-v1"),
        duration_ms,
    })
}

/// Requests an inline code completion.
pub fn ai_complete(request: &CompletionRequest) -> (r: Result<CompletionResponse, String>)
    ensures
        request.prefix@.len() == 0 ==> (r matches Err(e) && e@ == "Code prefix cannot be empty"@),
        request.prefix@.len() > 0 ==> (r matches Ok(c) && c.completions@.len() == 0
            && c.model@ == "natlab-codegen-v1"@),
{
    let start = start_timer();
    let duration = elapsed_millis(&start);
    ai_complete_at(request, duration)
}

} // verus!
