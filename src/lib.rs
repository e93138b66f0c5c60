//! A typed client for the Gemini generative-language API.
//!
//! The library holds the credential, the per-model configuration and the
//! chat history, builds the request of each call and decides what a reply
//! means. Sending the request over HTTP, and the JSON encoding of the wire
//! records, are the transport's part.
pub mod client;
pub mod error;
pub mod models;
pub mod text;
pub mod types;

pub use client::{ChatSession, Client, ModelClient};
pub use error::{Error, Result};
pub use models::Model;
pub use types::{Content, GenerateContentResponse, GenerationConfig, Part, SafetySettings};
