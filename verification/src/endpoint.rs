//! The address of the service: which base URLs are accepted, and how the URL of the
//! streaming endpoint is made from one.

use vstd::prelude::*;
use vstd::string::StrSliceExecFns;
use crate::error::DeepgramError;
use crate::text::{pairs_view, same_text};

verus! {

/// What this crate reads of a URL that the `url` crate has parsed.
#[derive(Debug, PartialEq, Eq, Clone)]
pub struct UrlParts {
    /// The URL as the `url` crate writes it.
    pub href: String,
    /// Its scheme, in lower case and without the colon.
    pub scheme: String,
    /// Whether it is of the kind that no relative reference can be resolved against.
    pub cannot_be_a_base: bool,
    /// Its query, without the question mark, if it has one.
    pub query: Option<String>,
    /// Its fragment, without the hash sign, if it has one.
    pub fragment: Option<String>,
}

/// What a [`UrlParts`] holds.
pub struct UrlPartsView {
    pub href: Seq<char>,
    pub scheme: Seq<char>,
    pub cannot_be_a_base: bool,
    pub query: Option<Seq<char>>,
    pub fragment: Option<Seq<char>>,
}

impl View for UrlParts {
    type V = UrlPartsView;

    open spec fn view(&self) -> UrlPartsView {
        UrlPartsView {
            href: self.href@,
            scheme: self.scheme@,
            cannot_be_a_base: self.cannot_be_a_base,
            query: match self.query {
                Some(q) => Some(q@),
                None => None,
            },
            fragment: match self.fragment {
                Some(f) => Some(f@),
                None => None,
            },
        }
    }
}

/// What an optional [`UrlParts`] holds.
pub open spec fn parts_view(parts: Option<UrlParts>) -> Option<UrlPartsView> {
    match parts {
        Some(p) => Some(p@),
        None => None,
    }
}

/// What `url::Url::parse` makes of a text: the URL, or `None` where it refuses the text.
pub uninterp spec fn url_parsed(input: Seq<char>) -> Option<UrlPartsView>;

/// What `url::Url::join` makes of a reference, resolved against the URL that `base` is
/// parsed to: the URL, or `None` where `base` does not parse or the reference is refused.
pub uninterp spec fn url_joined(base: Seq<char>, reference: Seq<char>) -> Option<UrlPartsView>;

/// What `url::Url::set_scheme` makes of the URL that `href` is parsed to: the URL with
/// the new scheme, or `None` where `href` does not parse or the change is refused.
pub uninterp spec fn url_with_scheme(href: Seq<char>, scheme: Seq<char>) -> Option<UrlPartsView>;

/// The most characters that a URL may have for this crate to change its scheme.
pub const MAX_URL_LEN: usize = 0xff_ffff;

/// The text that `url::form_urlencoded::Serializer` makes of a list of name and value
/// pairs: the pairs in order, in `application/x-www-form-urlencoded` syntax.
pub uninterp spec fn form_urlencoded(pairs: Seq<(Seq<char>, Seq<char>)>) -> Seq<char>;

/// Calls `url::Url::parse`, and reads off the URL what a [`UrlParts`] holds, with
/// `as_str`, `scheme`, `cannot_be_a_base`, `query` and `fragment`. What comes
/// back depends on the text alone.
#[verifier::external_body]
pub(crate) fn parse_url(input: &str) -> (r: Option<UrlParts>)
    ensures
        parts_view(r) == url_parsed(input@),
{
    match url::Url::parse(input) {
        Ok(url) => Some(
            UrlParts {
                href: url.as_str().to_string(),
                scheme: url.scheme().to_string(),
                cannot_be_a_base: url.cannot_be_a_base(),
                query: url.query().map(String::from),
                fragment: url.fragment().map(String::from),
            },
        ),
        Err(_) => None,
    }
}

/// Parses `base` with `url::Url::parse` and calls `url::Url::join` on it. What comes
/// back depends on the two texts alone.
#[verifier::external_body]
pub(crate) fn join_url(base: &str, reference: &str) -> (r: Option<UrlParts>)
    ensures
        parts_view(r) == url_joined(base@, reference@),
{
    let Ok(base) = url::Url::parse(base) else {
        return None;
    };
    match base.join(reference) {
        Ok(url) => Some(
            UrlParts {
                href: url.as_str().to_string(),
                scheme: url.scheme().to_string(),
                cannot_be_a_base: url.cannot_be_a_base(),
                query: url.query().map(String::from),
                fragment: url.fragment().map(String::from),
            },
        ),
        Err(_) => None,
    }
}

/// Parses `href` with `url::Url::parse` and calls `url::Url::set_scheme` on it. What
/// comes back depends on the two texts alone.
///
/// Both texts are short. `set_scheme` stops the program on a scheme whose length does
/// not fit in 32 bits, and it moves the 32-bit offsets of the parsed URL by the
/// difference of the two schemes without a test, which fails where an offset is
/// within that difference of the largest. A text of at most [`MAX_URL_LEN`]
/// characters parses to a URL whose offsets stay far below that: the parsed form of a
/// character takes a few bytes, never hundreds.
#[verifier::external_body]
pub(crate) fn rescheme_url(href: &str, scheme: &str) -> (r: Option<UrlParts>)
    requires
        scheme@.len() <= 8,
        href@.len() <= MAX_URL_LEN,
    ensures
        parts_view(r) == url_with_scheme(href@, scheme@),
{
    let Ok(mut url) = url::Url::parse(href) else {
        return None;
    };
    match url.set_scheme(scheme) {
        Ok(()) => Some(
            UrlParts {
                href: url.as_str().to_string(),
                scheme: url.scheme().to_string(),
                cannot_be_a_base: url.cannot_be_a_base(),
                query: url.query().map(String::from),
                fragment: url.fragment().map(String::from),
            },
        ),
        Err(()) => None,
    }
}

/// Appends the pairs to a new `url::form_urlencoded::Serializer` with `extend_pairs`
/// and takes its text with `finish`. What comes back depends on the pairs alone.
#[verifier::external_body]
pub(crate) fn encode_pairs(pairs: &Vec<(String, String)>) -> (r: String)
    ensures
        r@ == form_urlencoded(pairs_view(pairs@)),
{
    url::form_urlencoded::Serializer::new(String::new()).extend_pairs(pairs.iter()).finish()
}

/// Whether a base URL may have this scheme: `http`, `https`, `ws` and `wss` are accepted.
pub open spec fn accepted_scheme(scheme: Seq<char>) -> bool {
    scheme == "http"@ || scheme == "https"@ || scheme == "ws"@ || scheme == "wss"@
}

/// The scheme of the streaming endpoint for a base URL with the given scheme: `ws` for
/// `http` and `ws`, `wss` for `https` and `wss`, and none for any other.
pub open spec fn stream_scheme(scheme: Seq<char>) -> Option<Seq<char>> {
    if scheme == "http"@ || scheme == "ws"@ {
        Some("ws"@)
    } else if scheme == "https"@ || scheme == "wss"@ {
        Some("wss"@)
    } else {
        None
    }
}

/// The base URL that a parsed URL is accepted as: the URL as it is written, where it
/// can be a base and has an accepted scheme.
pub open spec fn checked_base(parsed: Option<UrlPartsView>) -> Option<Seq<char>> {
    match parsed {
        Some(p) => if !p.cannot_be_a_base && accepted_scheme(p.scheme) {
            Some(p.href)
        } else {
            None
        },
        None => None,
    }
}

/// The URL of the streaming endpoint under a base URL: the path `v1/listen` resolved
/// against the base, with the scheme that [`stream_scheme`] gives for the scheme of
/// the result. None where the base cannot be resolved against, where its scheme has
/// no streaming scheme, where the resolved URL has more than [`MAX_URL_LEN`]
/// characters, where the scheme cannot be changed, or where the result has a query
/// or a fragment: the URL of an endpoint ends with its path.
pub open spec fn stream_url(base: Seq<char>) -> Option<Seq<char>> {
    match url_joined(base, "v1/listen"@) {
        Some(joined) => match stream_scheme(joined.scheme) {
            Some(scheme) => if joined.href.len() <= MAX_URL_LEN {
                match url_with_scheme(joined.href, scheme) {
                    Some(url) => if url.query is None && url.fragment is None {
                        Some(url.href)
                    } else {
                        None
                    },
                    None => None,
                }
            } else {
                None
            },
            None => None,
        },
        None => None,
    }
}

/// Whether a base URL may have this scheme.
pub fn is_accepted_scheme(scheme: &str) -> (r: bool)
    ensures
        r == accepted_scheme(scheme@),
{
    same_text(scheme, "http") || same_text(scheme, "https") || same_text(scheme, "ws")
        || same_text(scheme, "wss")
}

/// The scheme of the streaming endpoint for a base URL with the given scheme.
pub fn upgrade_scheme(scheme: &str) -> (r: Option<&'static str>)
    ensures
        match r {
            Some(s) => stream_scheme(scheme@) == Some(s@),
            None => stream_scheme(scheme@) is None,
        },
{
    if same_text(scheme, "http") || same_text(scheme, "ws") {
        Some("ws")
    } else if same_text(scheme, "https") || same_text(scheme, "wss") {
        Some("wss")
    } else {
        None
    }
}

/// Decides whether a parsed URL is accepted as a base URL. It is refused where the text
/// did not parse, where the URL cannot be a base, and where its scheme is not accepted.
pub fn check_base_url(parsed: Option<UrlParts>) -> (r: Result<String, DeepgramError>)
    ensures
        match checked_base(parts_view(parsed)) {
            Some(href) => r matches Ok(base) && base@ == href,
            None => r matches Err(DeepgramError::InvalidBaseUrl),
        },
{
    match parsed {
        Some(parts) => {
            if parts.cannot_be_a_base {
                return Err(DeepgramError::InvalidBaseUrl);
            }
            if !is_accepted_scheme(parts.scheme.as_str()) {
                return Err(DeepgramError::InvalidBaseUrl);
            }
            Ok(parts.href)
        },
        None => Err(DeepgramError::InvalidBaseUrl),
    }
}

/// Parses a text as a base URL. Gives the URL as the `url` crate writes it, or
/// [`DeepgramError::InvalidBaseUrl`] where the text is no URL, where the URL cannot be
/// a base, and where its scheme is none of `http`, `https`, `ws` and `wss`.
pub fn parse_base_url(base_url: &str) -> (r: Result<String, DeepgramError>)
    ensures
        match checked_base(url_parsed(base_url@)) {
            Some(href) => r matches Ok(base) && base@ == href,
            None => r matches Err(DeepgramError::InvalidBaseUrl),
        },
{
    check_base_url(parse_url(base_url))
}

/// The URL of the streaming endpoint under a base URL, or
/// [`DeepgramError::InvalidBaseUrl`] where there is none: see [`stream_url`].
pub fn resolve_stream_url(base_url: &str) -> (r: Result<String, DeepgramError>)
    ensures
        match stream_url(base_url@) {
            Some(href) => r matches Ok(url) && url@ == href,
            None => r matches Err(DeepgramError::InvalidBaseUrl),
        },
{
    let Some(joined) = join_url(base_url, "v1/listen") else {
        return Err(DeepgramError::InvalidBaseUrl);
    };
    let Some(scheme) = upgrade_scheme(joined.scheme.as_str()) else {
        return Err(DeepgramError::InvalidBaseUrl);
    };
    if joined.href.as_str().unicode_len() > MAX_URL_LEN {
        return Err(DeepgramError::InvalidBaseUrl);
    }
    proof {
        reveal_strlit("ws");
        reveal_strlit("wss");
    }
    match rescheme_url(joined.href.as_str(), scheme) {
        Some(url) => {
            if url.query.is_some() || url.fragment.is_some() {
                return Err(DeepgramError::InvalidBaseUrl);
            }
            Ok(url.href)
        },
        None => Err(DeepgramError::InvalidBaseUrl),
    }
}

/// The streaming scheme is `wss` for `https` and `ws` for `http`; the schemes that
/// have a streaming scheme are those that are accepted of a base URL; and a URL with
/// any other scheme is refused as a base URL, whatever else it holds.
pub proof fn lemma_scheme_upgrade(parts: UrlPartsView)
    ensures
        stream_scheme("https"@) == Some("wss"@),
        stream_scheme("http"@) == Some("ws"@),
        stream_scheme("wss"@) == Some("wss"@),
        stream_scheme("ws"@) == Some("ws"@),
        stream_scheme(parts.scheme) is Some <==> accepted_scheme(parts.scheme),
        !accepted_scheme(parts.scheme) ==> checked_base(Some(parts)) is None,
{
    reveal_strlit("http");
    reveal_strlit("https");
    reveal_strlit("ws");
    reveal_strlit("wss");
    assert("https"@.len() == 5);
}

} // verus!
