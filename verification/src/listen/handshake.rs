//! The request that opens the WebSocket.

use vstd::prelude::*;
use vstd::string::StringExecFns;
use crate::text::{owned, pairs_view, push_pair};

verus! {

/// The request that asks the service to upgrade a connection to a WebSocket.
#[derive(Debug, Clone, PartialEq, Eq)]
pub struct HandshakeRequest {
    /// The method of the request.
    pub method: String,
    /// The URL that is asked for.
    pub uri: String,
    /// The headers, by name and value, in the order in which they are sent.
    pub headers: Vec<(String, String)>,
}

/// The headers of the upgrade request, in order: the WebSocket key, the host, the two
/// headers that ask for the upgrade, and the protocol version; then, only where a
/// credential was configured, `authorization` with `token`, a space and the credential.
pub open spec fn handshake_headers(key: Seq<char>, credential: Option<Seq<char>>) -> Seq<
    (Seq<char>, Seq<char>),
> {
    seq![
        ("sec-websocket-key"@, key),
        ("host"@, "api.deepgram.com"@),
        ("connection"@, "upgrade"@),
        ("upgrade"@, "websocket"@),
        ("sec-websocket-version"@, "13"@),
    ] + match credential {
        Some(c) => seq![("authorization"@, "token "@ + c)],
        None => Seq::empty(),
    }
}

/// Calls `tungstenite::handshake::client::generate_key`: a new random key for the
/// `Sec-WebSocket-Key` header. Each call gives another key; every key is the base64
/// text of sixteen bytes, which has twenty-four characters.
#[verifier::external_body]
pub(crate) fn generate_key() -> (r: String)
    ensures
        r@.len() == 24,
{
    tungstenite::handshake::client::generate_key()
}

/// The headers of the upgrade request for a given WebSocket key and credential.
pub fn upgrade_headers(key: String, credential: Option<&str>) -> (r: Vec<(String, String)>)
    ensures
        pairs_view(r@) == handshake_headers(
            key@,
            match credential {
                Some(c) => Some(c@),
                None => None,
            },
        ),
{
    let mut out: Vec<(String, String)> = Vec::new();
    push_pair(&mut out, "sec-websocket-key", key);
    push_pair(&mut out, "host", owned("api.deepgram.com"));
    push_pair(&mut out, "connection", owned("upgrade"));
    push_pair(&mut out, "upgrade", owned("websocket"));
    push_pair(&mut out, "sec-websocket-version", owned("13"));
    match credential {
        Some(c) => {
            let mut value = owned("token ");
            value.append(c);
            push_pair(&mut out, "authorization", value);
        },
        None => {},
    }
    out
}

/// The upgrade request for a given URL, WebSocket key and credential: a `GET` of the
/// URL with the headers of [`handshake_headers`].
pub fn upgrade_request(uri: String, key: String, credential: Option<&str>) -> (r:
    HandshakeRequest)
    ensures
        r.method@ == "GET"@,
        r.uri@ == uri@,
        pairs_view(r.headers@) == handshake_headers(
            key@,
            match credential {
                Some(c) => Some(c@),
                None => None,
            },
        ),
{
    HandshakeRequest { method: owned("GET"), uri, headers: upgrade_headers(key, credential) }
}

/// The `authorization` header is sent exactly where a credential was configured, and
/// it is the last header then; the five other headers are always sent, in one order.
pub proof fn lemma_credential_header(key: Seq<char>, credential: Option<Seq<char>>)
    ensures
        handshake_headers(key, credential).len() == if credential is Some {
            6int
        } else {
            5int
        },
        handshake_headers(key, credential).take(5) == handshake_headers(key, None),
        credential matches Some(c) ==> handshake_headers(key, credential)[5] == (
            "authorization"@,
            "token "@ + c,
        ),
{
}

} // verus!
