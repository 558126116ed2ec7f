//! The parts of the OpenAI chat-completions wire format that routing reads.
use vstd::prelude::*;

verus! {

/// Author of a chat message.
#[derive(Debug, Clone, Copy, PartialEq, Eq, Structural)]
pub enum Role {
    System,
    User,
    Assistant,
    Tool,
}

/// One part of a multi-part message: text, an image reference, or both.
#[derive(Debug, Clone)]
pub struct ContentPart {
    pub part_type: String,
    pub text: Option<String>,
    pub image_url: Option<String>,
}

/// The function named by a tool call, with its JSON argument text.
#[derive(Debug, Clone)]
pub struct FunctionCall {
    pub name: String,
    pub arguments: String,
}

/// A tool call that an assistant message requests.
#[derive(Debug, Clone)]
pub struct ToolCall {
    pub id: String,
    pub call_type: String,
    pub function: FunctionCall,
}

/// One chat message.
#[derive(Debug, Clone)]
pub struct Message {
    pub role: Role,
    pub content: Option<String>,
    pub content_parts: Option<Vec<ContentPart>>,
    pub tool_calls: Option<Vec<ToolCall>>,
    pub tool_call_id: Option<String>,
}

/// A function offered to the model as a tool; `parameters` is its JSON schema text.
#[derive(Debug, Clone)]
pub struct FunctionDefinition {
    pub name: String,
    pub description: Option<String>,
    pub parameters: String,
}

/// A tool offered to the model.
#[derive(Debug, Clone)]
pub struct ToolDefinition {
    pub tool_type: String,
    pub function: FunctionDefinition,
}

/// An incoming chat-completions request.
#[derive(Debug, Clone)]
pub struct ChatCompletionRequest {
    pub model: String,
    pub messages: Vec<Message>,
    pub tools: Vec<ToolDefinition>,
    pub stream: bool,
    pub tool_choice: Option<String>,
    pub max_tokens: Option<u32>,
}

impl Default for ChatCompletionRequest {
    fn default() -> (r: ChatCompletionRequest)
        ensures
            r.model@ == Seq::<char>::empty(),
            r.messages@.len() == 0,
            r.tools@.len() == 0,
            !r.stream,
            r.tool_choice is None,
            r.max_tokens is None,
    {
        ChatCompletionRequest {
            model: String::new(),
            messages: Vec::new(),
            tools: Vec::new(),
            stream: false,
            tool_choice: None,
            max_tokens: None,
        }
    }
}

/// Prompt-token details of an upstream usage report.
#[derive(Debug, Clone, Copy)]
pub struct PromptTokensDetails {
    pub cached_tokens: u32,
}

/// Token usage reported by an upstream.
#[derive(Debug, Clone, Copy)]
pub struct Usage {
    pub prompt_tokens: u32,
    pub completion_tokens: u32,
    pub total_tokens: u32,
    pub prompt_tokens_details: Option<PromptTokensDetails>,
}

/// One completion choice of an upstream response.
#[derive(Debug, Clone)]
pub struct Choice {
    pub index: u32,
    pub message: Message,
    pub finish_reason: Option<String>,
}

/// A non-streamed upstream response.
#[derive(Debug, Clone)]
pub struct ChatCompletionResponse {
    pub id: String,
    pub model: String,
    pub choices: Vec<Choice>,
    pub usage: Option<Usage>,
}

} // verus!
