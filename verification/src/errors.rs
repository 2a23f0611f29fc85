//! The application's error kinds and their messages.

use vstd::prelude::*;
use vstd::string::*;

use crate::strings::{decimal, push_decimal, push_str};

verus! {

/// An authentication failure.
#[derive(Debug)]
pub enum AuthError {
    /// The credentials or the token were rejected.
    Unauthorized,
    /// No token is saved.
    NoToken,
    /// The system keyring failed.
    Keyring(String),
}

/// An API failure.
#[derive(Debug)]
pub enum ApiError {
    RateLimited,
    NotFound,
    ServerError { status: u16 },
    UnexpectedResponse(String),
}

/// An audio failure.
#[derive(Debug)]
pub enum AudioError {
    /// No usable audio output.
    OutputInit(String),
    /// HLS segments kept failing.
    HlsFailed(String),
    Decode(String),
    Stream(String),
}

/// The message of an authentication failure.
pub open spec fn auth_error_message(e: AuthError) -> Seq<char> {
    match e {
        AuthError::Unauthorized => "Unauthorized - invalid credentials or token expired"@,
        AuthError::NoToken => "No token available - please log in"@,
        AuthError::Keyring(m) => "Keyring error: "@ + m@,
    }
}

/// The message of an API failure.
pub open spec fn api_error_message(e: ApiError) -> Seq<char> {
    match e {
        ApiError::RateLimited => "Rate limited - please wait before retrying"@,
        ApiError::NotFound => "Not found"@,
        ApiError::ServerError { status } => "Server error: "@ + decimal(status as nat),
        ApiError::UnexpectedResponse(m) => "Unexpected response: "@ + m@,
    }
}

/// The message of an audio failure.
pub open spec fn audio_error_message(e: AudioError) -> Seq<char> {
    match e {
        AudioError::OutputInit(m) => "Failed to initialize audio output: "@ + m@,
        AudioError::HlsFailed(m) => "HLS fetch failed after retries: "@ + m@,
        AudioError::Decode(m) => "Decode error: "@ + m@,
        AudioError::Stream(m) => "Stream error: "@ + m@,
    }
}

fn prefixed(prefix: &str, detail: &String) -> (m: String)
    ensures
        m@ == prefix@ + detail@,
{
    let mut m = String::from_str(prefix);
    push_str(&mut m, detail.as_str());
    m
}

impl AuthError {
    /// The user-facing message.
    pub fn message(&self) -> (m: String)
        ensures
            m@ == auth_error_message(*self),
    {
        match self {
            AuthError::Unauthorized => String::from_str("Unauthorized - invalid credentials or token expired"),
            AuthError::NoToken => String::from_str("No token available - please log in"),
            AuthError::Keyring(d) => prefixed("Keyring error: ", d),
        }
    }
}

impl ApiError {
    /// The user-facing message.
    pub fn message(&self) -> (m: String)
        ensures
            m@ == api_error_message(*self),
    {
        match self {
            ApiError::RateLimited => String::from_str("Rate limited - please wait before retrying"),
            ApiError::NotFound => String::from_str("Not found"),
            ApiError::ServerError { status } => {
                let mut m = String::from_str("Server error: ");
                push_decimal(&mut m, *status as u64);
                m
            },
            ApiError::UnexpectedResponse(d) => prefixed("Unexpected response: ", d),
        }
    }
}

impl AudioError {
    /// The user-facing message.
    pub fn message(&self) -> (m: String)
        ensures
            m@ == audio_error_message(*self),
    {
        match self {
            AudioError::OutputInit(d) => prefixed("Failed to initialize audio output: ", d),
            AudioError::HlsFailed(d) => prefixed("HLS fetch failed after retries: ", d),
            AudioError::Decode(d) => prefixed("Decode error: ", d),
            AudioError::Stream(d) => prefixed("Stream error: ", d),
        }
    }
}

} // verus!
