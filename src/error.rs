//! The failures of a call to the API.
use vstd::prelude::*;

use reqwest::Error as TransportError;
use serde_json::Error as JsonParseError;

verus! {

#[verifier::external_type_specification]
#[verifier::external_body]
pub struct ExTransportError(TransportError);

#[verifier::external_type_specification]
#[verifier::external_body]
pub struct ExJsonParseError(JsonParseError);

/// Everything that can go wrong in a call to the API.
#[derive(Debug)]
pub enum Error {
    /// The HTTP exchange failed (connection, timeout, TLS) or its body could
    /// not be decoded.
    HttpError(TransportError),
    /// JSON could not be parsed.
    JsonError(JsonParseError),
    /// The API answered with a status outside 200-299.
    ApiError {
        /// `HTTP <status>: <body>`.
        message: String,
        /// The HTTP status code.
        code: Option<i32>,
    },
    /// The API answered with success but without candidates, most often
    /// because safety filters blocked the prompt.
    NoResponse,
    /// The API key was refused.
    InvalidApiKey,
    /// Too many requests.
    RateLimitExceeded,
    /// The model does not exist or is not available.
    InvalidModel(String),
    /// Generated text could not be turned into the requested structure; the
    /// parser's message is carried.
    GenerationFailed(String),
    /// An argument was invalid.
    InvalidInput(String),
}

/// The outcome of a call to the API.
pub type Result<T> = std::result::Result<T, Error>;

} // verus!
