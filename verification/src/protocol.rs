//! The requests that clients send and the responses they get.
//!
//! Fields that this router never interprets hold raw JSON.

use vstd::prelude::*;

verus! {

/// The bits of a single precision number, which is passed on and never computed with.
#[derive(Clone, Copy, Debug, PartialEq, Eq, Structural)]
pub struct F32Bits {
    pub bits: u32,
}

/// The bits of the number one.
pub const ONE_BITS: u32 = 0x3f80_0000;

/// A part of the content of a user message.
#[derive(Debug)]
pub enum ContentPart {
    Text { text: String },
    ImageUrl { url: String, detail: Option<String> },
}

/// The content of a user message: a text, or a list of parts.
#[derive(Debug)]
pub enum UserMessageContent {
    Text(String),
    Parts(Vec<ContentPart>),
}

/// A message of a chat.
#[allow(inconsistent_fields)]
#[derive(Debug)]
pub enum ChatMessage {
    System { role: String, content: String, name: Option<String> },
    User { role: String, content: UserMessageContent, name: Option<String> },
    Assistant {
        role: String,
        content: Option<String>,
        name: Option<String>,
        tool_calls: Option<serde_json::Value>,
        function_call: Option<serde_json::Value>,
        reasoning_content: Option<String>,
    },
    Tool { role: String, content: String, tool_call_id: String },
    Function { role: String, content: String, name: String },
}

/// A request for the next message of a chat.
#[derive(Debug)]
pub struct ChatCompletionRequest {
    pub messages: Vec<ChatMessage>,
    pub max_tokens: Option<u32>,
    pub max_completion_tokens: Option<u32>,
    pub temperature: Option<F32Bits>,
    pub top_p: Option<F32Bits>,
    pub stop: Option<Vec<String>>,
    pub ignore_eos: bool,
    pub stream: bool,
}

/// The prompt of a text completion.
#[derive(Debug)]
pub enum PromptInput {
    String(String),
    StringArray(Vec<String>),
    IntArray(Vec<i32>),
    IntBatch(Vec<Vec<i32>>),
}

/// A request for the continuation of a text.
#[derive(Debug)]
pub struct CompletionRequest {
    pub prompt: PromptInput,
    pub max_tokens: Option<u32>,
    pub temperature: Option<F32Bits>,
    pub top_p: Option<F32Bits>,
    pub top_k: Option<i32>,
    pub stop: Option<Vec<String>>,
    pub stream: bool,
    pub echo: bool,
}

/// How many tokens a request took.
#[derive(Debug)]
pub struct Usage {
    pub prompt_tokens: u32,
    pub completion_tokens: u32,
    pub total_tokens: u32,
    pub completion_tokens_details: Option<serde_json::Value>,
}

/// A choice of a chat response.
#[derive(Debug)]
pub struct ChatChoice {
    pub index: u32,
    pub message: ChatMessage,
    pub logprobs: Option<serde_json::Value>,
    pub finish_reason: Option<String>,
    pub matched_stop: Option<serde_json::Value>,
    pub hidden_states: Option<serde_json::Value>,
}

/// The response to a chat request that does not stream.
#[derive(Debug)]
pub struct ChatCompletionResponse {
    pub id: String,
    pub object: String,
    pub created: u64,
    pub model: String,
    pub choices: Vec<ChatChoice>,
    pub usage: Option<Usage>,
    pub system_fingerprint: Option<String>,
}

/// What a chunk adds to the message of a chat.
#[derive(Debug)]
pub struct ChatMessageDelta {
    pub role: Option<String>,
    pub content: Option<String>,
    pub function_call: Option<serde_json::Value>,
    pub tool_calls: Option<serde_json::Value>,
    pub reasoning_content: Option<String>,
}

/// A choice of a streamed chat chunk.
#[derive(Debug)]
pub struct ChatStreamChoice {
    pub index: u32,
    pub delta: ChatMessageDelta,
    pub logprobs: Option<serde_json::Value>,
    pub finish_reason: Option<String>,
}

/// A chunk of a streamed chat response.
#[derive(Debug)]
pub struct ChatCompletionStreamResponse {
    pub id: String,
    pub object: String,
    pub created: u64,
    pub model: String,
    pub choices: Vec<ChatStreamChoice>,
    pub usage: Option<Usage>,
    pub system_fingerprint: Option<String>,
}

/// A choice of a text completion.
#[derive(Debug)]
pub struct CompletionChoice {
    pub index: u32,
    pub text: String,
    pub logprobs: Option<serde_json::Value>,
    pub finish_reason: Option<String>,
    pub matched_stop: Option<serde_json::Value>,
    pub hidden_states: Option<serde_json::Value>,
}

/// The response to a text completion request that does not stream.
#[derive(Debug)]
pub struct CompletionResponse {
    pub id: String,
    pub object: String,
    pub created: u64,
    pub model: String,
    pub choices: Vec<CompletionChoice>,
    pub usage: Option<Usage>,
    pub system_fingerprint: Option<String>,
}

} // verus!
