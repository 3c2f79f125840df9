//! A client for Deepgram's speech recognition service.
//!
//! Start with a [`Deepgram`] value, and ask it for a [`Transcription`].

use vstd::prelude::*;
use crate::endpoint::{checked_base, parse_base_url, url_parsed};
use crate::error::DeepgramError;
use vstd::string::StringExecFns;
use crate::text::owned;

pub mod endpoint;
pub mod error;
pub mod listen;
pub mod manage;
pub mod options;
pub mod text;

verus! {

/// The base URL of the hosted service: `https://api.deepgram.com` as the `url` crate
/// writes it, or that text itself should the crate refuse it.
pub open spec fn hosted_base_url() -> Seq<char> {
    match checked_base(url_parsed("https://api.deepgram.com"@)) {
        Some(href) => href,
        None => "https://api.deepgram.com"@,
    }
}

/// A text that is kept out of what this crate shows of itself.
#[derive(Clone, PartialEq, Eq, PartialOrd, Ord)]
pub struct RedactedString(pub String);

impl RedactedString {
    /// What is shown in place of the text.
    pub fn shown(&self) -> (r: &'static str)
        ensures
            r@ == "***"@,
    {
        "***"
    }

    /// The text itself.
    pub fn deref(&self) -> (r: &str)
        ensures
            r@ == self.0@,
    {
        self.0.as_str()
    }
}

/// A client for the Deepgram API: the key it presents and the base URL it talks to.
#[derive(Clone)]
pub struct Deepgram {
    api_key: Option<RedactedString>,
    base_url: String,
}

/// Transcribes audio. Made by [`Deepgram::transcription`].
#[derive(Clone)]
pub struct Transcription<'a>(pub &'a Deepgram);

/// Generates speech from text. Made by [`Deepgram::text_to_speech`].
#[derive(Clone)]
pub struct Speak<'a>(pub &'a Deepgram);

impl Deepgram {
    /// The key that this client presents, if it has one.
    pub closed spec fn key(&self) -> Option<Seq<char>> {
        match self.api_key {
            Some(k) => Some(k.0@),
            None => None,
        }
    }

    /// The base URL that this client talks to.
    pub closed spec fn base(&self) -> Seq<char> {
        self.base_url@
    }

    /// A client for the hosted service, with the given key.
    pub fn new(api_key: &str) -> (r: Self)
        ensures
            r.key() == Some(api_key@),
            r.base() == hosted_base_url(),
    {
        let base_url = match parse_base_url("https://api.deepgram.com") {
            Ok(base) => base,
            Err(_) => owned("https://api.deepgram.com"),
        };
        Self::inner_constructor(base_url, Some(owned(api_key)))
    }

    /// A client for a service at another base URL, which asks for no key.
    ///
    /// Gives [`DeepgramError::InvalidBaseUrl`] where the text is no URL, where the URL
    /// cannot be a base, and where its scheme is none of `http`, `https`, `ws` and `wss`.
    pub fn with_base_url(base_url: &str) -> (r: Result<Self, DeepgramError>)
        ensures
            match checked_base(url_parsed(base_url@)) {
                Some(href) => r matches Ok(client) && client.base() == href && client.key()
                    is None,
                None => r matches Err(DeepgramError::InvalidBaseUrl),
            },
    {
        match parse_base_url(base_url) {
            Ok(base) => Ok(Self::inner_constructor(base, None)),
            Err(e) => Err(e),
        }
    }

    /// A client for a service at another base URL, with the given key.
    ///
    /// Gives [`DeepgramError::InvalidBaseUrl`] where the text is no URL, where the URL
    /// cannot be a base, and where its scheme is none of `http`, `https`, `ws` and `wss`.
    pub fn with_base_url_and_api_key(base_url: &str, api_key: &str) -> (r: Result<
        Self,
        DeepgramError,
    >)
        ensures
            match checked_base(url_parsed(base_url@)) {
                Some(href) => r matches Ok(client) && client.base() == href && client.key()
                    == Some(api_key@),
                None => r matches Err(DeepgramError::InvalidBaseUrl),
            },
    {
        match parse_base_url(base_url) {
            Ok(base) => Ok(Self::inner_constructor(base, Some(owned(api_key)))),
            Err(e) => Err(e),
        }
    }

    fn inner_constructor(base_url: String, api_key: Option<String>) -> (r: Self)
        ensures
            r.base() == base_url@,
            r.key() == match api_key {
                Some(k) => Some(k@),
                None => None,
            },
    {
        Deepgram {
            api_key: match api_key {
                Some(k) => Some(RedactedString(k)),
                None => None,
            },
            base_url,
        }
    }

    /// The key that this client presents, if it has one.
    pub fn api_key(&self) -> (r: Option<&str>)
        ensures
            match r {
                Some(k) => self.key() == Some(k@),
                None => self.key() is None,
            },
    {
        match &self.api_key {
            Some(k) => Some(k.deref()),
            None => None,
        }
    }

    /// The base URL that this client talks to.
    pub fn base_url(&self) -> (r: &str)
        ensures
            r@ == self.base(),
    {
        self.base_url.as_str()
    }

    /// The value of the `Authorization` header of a request to the REST endpoints:
    /// `Token`, a space and the key. None where the client has no key.
    pub fn authorization(&self) -> (r: Option<String>)
        ensures
            match r {
                Some(v) => self.key() matches Some(k) && v@ == "Token "@ + k,
                None => self.key() is None,
            },
    {
        match &self.api_key {
            Some(k) => {
                let mut value = owned("Token ");
                value.append(k.deref());
                Some(value)
            },
            None => None,
        }
    }

    /// The part of this client that transcribes audio.
    pub fn transcription(&self) -> (r: Transcription<'_>)
        ensures
            r.0 == self,
    {
        Transcription(self)
    }

    /// The part of this client that generates speech.
    pub fn text_to_speech(&self) -> (r: Speak<'_>)
        ensures
            r.0 == self,
    {
        Speak(self)
    }
}

impl<'a> Transcription<'a> {
    /// The client that this is a part of.
    pub fn deepgram(&self) -> (r: &Deepgram)
        ensures
            r == self.0,
    {
        self.0
    }
}

impl<'a> From<&'a Deepgram> for Transcription<'a> {
    /// The part of a client that transcribes audio.
    fn from(deepgram: &'a Deepgram) -> (r: Self) {
        Transcription(deepgram)
    }
}

impl<'a> vstd::std_specs::convert::FromSpecImpl<&'a Deepgram> for Transcription<'a> {
    open spec fn obeys_from_spec() -> bool {
        true
    }

    open spec fn from_spec(deepgram: &'a Deepgram) -> Self {
        Transcription(deepgram)
    }
}

impl<'a> From<&'a Deepgram> for Speak<'a> {
    /// The part of a client that generates speech.
    fn from(deepgram: &'a Deepgram) -> (r: Self) {
        Speak(deepgram)
    }
}

impl<'a> vstd::std_specs::convert::FromSpecImpl<&'a Deepgram> for Speak<'a> {
    open spec fn obeys_from_spec() -> bool {
        true
    }

    open spec fn from_spec(deepgram: &'a Deepgram) -> Self {
        Speak(deepgram)
    }
}

} // verus!
