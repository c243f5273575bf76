//! Payloads of the `ChatCompletions` action and the envelopes that the
//! service wraps them in.
use vstd::prelude::*;

verus! {

/// Generic Tencent Cloud success response envelope.
#[derive(Debug, Clone)]
pub struct TencentCloudResponse<T> {
    pub response: T,
}

/// Generic Tencent Cloud error response envelope.
#[derive(Debug, Clone)]
pub struct TencentCloudErrorResponse {
    pub request_id: Option<String>,
    pub error: Option<ErrorContent>,
}

/// Error content as returned by Tencent Cloud.
#[derive(Debug, Clone)]
pub struct ErrorContent {
    pub code: String,
    pub message: String,
}

/// Chat message of a `ChatCompletions` request.
#[derive(Debug, Clone)]
pub struct Message {
    pub role: String,
    pub content: String,
}

/// Message inside a choice in `ChatCompletionsResponse`.
#[derive(Debug, Clone)]
pub struct ChatChoiceMessage {
    pub role: Option<String>,
    pub content: Option<String>,
}

/// Single choice in `ChatCompletionsResponse`.
#[derive(Debug, Clone)]
pub struct ChatChoice {
    pub index: Option<u32>,
    pub message: Option<ChatChoiceMessage>,
    pub finish_reason: Option<String>,
}

/// Token usage statistics returned by the service.
#[derive(Debug, Clone)]
pub struct Usage {
    pub prompt_tokens: Option<u32>,
    pub completion_tokens: Option<u32>,
    pub total_tokens: Option<u32>,
}

/// Inner payload for `ChatCompletionsResponse`.
#[derive(Debug, Clone)]
pub struct ChatCompletionsResponseInner {
    pub request_id: Option<String>,
    pub id: Option<String>,
    pub choices: Option<Vec<ChatChoice>>,
    pub usage: Option<Usage>,
}

/// The full `ChatCompletions` response envelope.
pub type ChatCompletionsResponse = TencentCloudResponse<ChatCompletionsResponseInner>;

} // verus!
