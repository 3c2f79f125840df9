use deepgram::endpoint::{check_base_url, is_accepted_scheme, parse_base_url, resolve_stream_url, upgrade_scheme, UrlParts};
use deepgram::error::DeepgramError;
use deepgram::Deepgram;

#[test]
fn secure_base_gives_secure_stream_url() {
    let dg = Deepgram::with_base_url("https://api.example.com").unwrap();
    assert_eq!(
        dg.transcription().listen_stream_url().unwrap(),
        "wss://api.example.com/v1/listen"
    );
}

#[test]
fn scheme_upgrade() {
    assert_eq!(upgrade_scheme("https"), Some("wss"));
    assert_eq!(upgrade_scheme("http"), Some("ws"));
    assert_eq!(upgrade_scheme("wss"), Some("wss"));
    assert_eq!(upgrade_scheme("ws"), Some("ws"));
    assert_eq!(upgrade_scheme("ftp"), None);
    assert_eq!(upgrade_scheme("file"), None);
    assert_eq!(upgrade_scheme(""), None);
    assert_eq!(upgrade_scheme("HTTPS"), None);
}

#[test]
fn accepted_schemes() {
    for scheme in ["http", "https", "ws", "wss"] {
        assert!(is_accepted_scheme(scheme));
    }
    for scheme in ["ftp", "file", "mailto", "", "httpss"] {
        assert!(!is_accepted_scheme(scheme));
    }
}

#[test]
fn other_schemes_are_refused_as_base() {
    assert!(matches!(parse_base_url("ftp://example.com"), Err(DeepgramError::InvalidBaseUrl)));
    assert!(matches!(parse_base_url("file:///tmp/audio"), Err(DeepgramError::InvalidBaseUrl)));
    assert!(Deepgram::with_base_url("ftp://example.com").is_err());
    assert!(Deepgram::with_base_url_and_api_key("gopher://example.com", "key").is_err());
}

#[test]
fn what_is_no_url_is_refused_as_base() {
    assert!(matches!(parse_base_url("not a url"), Err(DeepgramError::InvalidBaseUrl)));
    assert!(matches!(parse_base_url(""), Err(DeepgramError::InvalidBaseUrl)));
    assert!(parse_base_url("").unwrap_err().is_invalid_base_url());
}

#[test]
fn what_cannot_be_a_base_is_refused() {
    assert!(matches!(parse_base_url("mailto:someone@example.com"), Err(DeepgramError::InvalidBaseUrl)));
    assert!(matches!(parse_base_url("data:text/plain,hello"), Err(DeepgramError::InvalidBaseUrl)));
}

#[test]
fn accepted_base_is_written_as_the_url_crate_writes_it() {
    assert_eq!(parse_base_url("http://localhost:8080").unwrap(), "http://localhost:8080/");
    assert_eq!(parse_base_url("HTTPS://API.Example.com").unwrap(), "https://api.example.com/");
    assert_eq!(parse_base_url("wss://example.com/api/").unwrap(), "wss://example.com/api/");
}

#[test]
fn check_base_url_decides_on_what_was_parsed() {
    let parts = |scheme: &str, cannot_be_a_base: bool| UrlParts {
        href: format!("{}://host/", scheme),
        scheme: scheme.to_string(),
        cannot_be_a_base,
        query: None,
        fragment: None,
    };
    assert_eq!(check_base_url(Some(parts("https", false))).unwrap(), "https://host/");
    assert_eq!(check_base_url(Some(parts("ws", false))).unwrap(), "ws://host/");
    assert!(matches!(check_base_url(Some(parts("https", true))), Err(DeepgramError::InvalidBaseUrl)));
    assert!(matches!(check_base_url(Some(parts("ftp", false))), Err(DeepgramError::InvalidBaseUrl)));
    assert!(matches!(check_base_url(None), Err(DeepgramError::InvalidBaseUrl)));
}

#[test]
fn stream_url_resolves_the_path_against_the_base() {
    assert_eq!(resolve_stream_url("http://host/api/").unwrap(), "ws://host/api/v1/listen");
    assert_eq!(resolve_stream_url("http://host/api").unwrap(), "ws://host/v1/listen");
    assert_eq!(resolve_stream_url("wss://host:9000").unwrap(), "wss://host:9000/v1/listen");
    assert_eq!(resolve_stream_url("ws://host/?q=1#frag").unwrap(), "ws://host/v1/listen");
}

#[test]
fn stream_url_of_an_unfit_base_is_refused() {
    assert!(matches!(resolve_stream_url("ftp://host/"), Err(DeepgramError::InvalidBaseUrl)));
    assert!(matches!(resolve_stream_url("nonsense"), Err(DeepgramError::InvalidBaseUrl)));
    assert!(matches!(resolve_stream_url("mailto:a@b.c"), Err(DeepgramError::InvalidBaseUrl)));
}

#[test]
fn client_keeps_key_and_base() {
    let dg = Deepgram::new("secret");
    assert_eq!(dg.api_key(), Some("secret"));
    assert_eq!(dg.base_url(), "https://api.deepgram.com/");
    assert_eq!(dg.authorization().unwrap(), "Token secret");
    let own = Deepgram::with_base_url("http://localhost:8080").unwrap();
    assert_eq!(own.api_key(), None);
    assert_eq!(own.authorization(), None);
    assert_eq!(own.base_url(), "http://localhost:8080/");
    assert_eq!(own.transcription().deepgram().base_url(), "http://localhost:8080/");
    assert_eq!(own.text_to_speech().0.base_url(), "http://localhost:8080/");
}

#[test]
fn an_overlong_base_has_no_stream_url() {
    let long = format!("http://host/{}", "a".repeat(0x100_0000));
    assert!(parse_base_url(&long).is_ok());
    assert!(matches!(resolve_stream_url(&long), Ok(_)));
    let longer = format!("http://host/{}/", "a".repeat(0x100_0000));
    assert!(matches!(resolve_stream_url(&longer), Err(DeepgramError::InvalidBaseUrl)));
    let fits = format!("http://host/{}/", "a".repeat(0xff_ffff - 30));
    assert_eq!(
        resolve_stream_url(&fits).unwrap(),
        format!("ws://host/{}/v1/listen", "a".repeat(0xff_ffff - 30))
    );
}
