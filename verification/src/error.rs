//! The error type of this crate.

use vstd::prelude::*;

verus! {

/// `reqwest::Error`, carried through unread.
#[verifier::external_type_specification]
#[verifier::external_body]
pub struct ExReqwestError(reqwest::Error);

/// `http::Error`, carried through unread.
#[verifier::external_type_specification]
#[verifier::external_body]
pub struct ExHttpError(http::Error);

/// `std::io::Error`, carried through unread.
#[verifier::external_type_specification]
#[verifier::external_body]
pub struct ExIoError(std::io::Error);

/// `tungstenite::Error`, carried through unread.
#[verifier::external_type_specification]
#[verifier::external_body]
pub struct ExWsError(tungstenite::Error);

/// `serde_json::Error`, carried through unread.
#[verifier::external_type_specification]
#[verifier::external_body]
pub struct ExSerdeError(serde_json::Error);

/// Errors that may arise from this crate.
#[derive(Debug)]
pub enum DeepgramError {
    /// The provided URL could not be used as a base URL.
    InvalidBaseUrl,
    /// No source was provided to the request builder.
    NoSource,
    /// The Deepgram API returned an error.
    DeepgramApiError {
        /// Error message from the Deepgram API.
        body: String,
        /// The underlying error of the HTTP request.
        err: reqwest::Error,
    },
    /// Something went wrong when generating the HTTP request.
    HttpError(http::Error),
    /// Something went wrong when making the HTTP request.
    ReqwestError(reqwest::Error),
    /// Something went wrong during I/O.
    IoError(std::io::Error),
    /// Something went wrong with the WebSocket.
    WsError(tungstenite::Error),
    /// Something went wrong during serialization or deserialization.
    SerdeError(serde_json::Error),
}

impl DeepgramError {
    /// Whether this is the error of a base URL that was refused.
    pub fn is_invalid_base_url(&self) -> (r: bool)
        ensures
            r == (self is InvalidBaseUrl),
    {
        match self {
            DeepgramError::InvalidBaseUrl => true,
            _ => false,
        }
    }
}

} // verus!
