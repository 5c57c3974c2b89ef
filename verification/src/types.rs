use vstd::prelude::*;

verus! {

/// Inbound request payload: the diff to summarise, and an optional
/// caller-supplied API key that overrides the environment's.
pub struct GitDiffRequest {
    pub diff: String,
    pub gemini_api_key: Option<String>,
}

/// Successful reply body: the generated message and the provider label.
pub struct CommitMessageResponse {
    pub commit_message: String,
    pub service_used: String,
}

/// Error reply body: a human-readable description of the failure.
pub struct ErrorResponse {
    pub error: String,
}

/// Upstream request body: one prompt turn, no conversation history.
pub struct GeminiRequest {
    pub contents: Vec<GeminiContent>,
}

/// One turn of upstream content, made of text parts.
pub struct GeminiContent {
    pub parts: Vec<GeminiPart>,
}

/// A single fragment of prompt text.
pub struct GeminiPart {
    pub text: String,
}

/// Upstream response body: the provider's alternative outputs.
pub struct GeminiResponse {
    pub candidates: Vec<GeminiCandidate>,
}

/// One alternative output returned by the provider.
pub struct GeminiCandidate {
    pub content: GeminiContentResponse,
}

/// The content of one candidate, made of text parts.
pub struct GeminiContentResponse {
    pub parts: Vec<GeminiPartResponse>,
}

/// A single fragment of generated text.
pub struct GeminiPartResponse {
    pub text: String,
}

} // verus!
