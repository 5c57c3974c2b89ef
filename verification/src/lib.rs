//! Turns a source-control diff into a conventional-commit message by way of
//! a generative-AI provider. The library owns everything that can be checked:
//! request validation, credential precedence, the prompt template, the exact
//! JSON framing of the upstream call, the reading of the provider's reply,
//! and the mapping of every outcome to an HTTP status and body. The network
//! transport around it hands in plain values and sends plain bytes out.

pub mod gemini;
pub mod handler;
pub mod json;
pub mod text;
pub mod types;
