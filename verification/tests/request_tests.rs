use deepgram::error::DeepgramError;
use deepgram::listen::handshake::{upgrade_headers, upgrade_request};
use deepgram::listen::session::SessionState;
use deepgram::manage::projects::{Options as ProjectOptions, OptionsBuilder as ProjectOptionsBuilder};
use deepgram::manage::response::{Message, Scopes};
use deepgram::options::encoding::{Encoding, Endpointing};
use deepgram::options::language::Language;
use deepgram::options::model::Model;
use deepgram::options::redact::Redact;
use deepgram::options::{Options, OptionsBuilder};
use deepgram::text::{decimal_string, flag_string, glued, same_text};
use deepgram::{Deepgram, RedactedString};

fn pair(key: &str, value: &str) -> (String, String) {
    (key.to_string(), value.to_string())
}

#[test]
fn features_come_first_then_streaming_settings_in_their_order() {
    let dg = Deepgram::new("token");
    let options = Options::builder().model(Model::Nova2).detect_language(true).build();
    let transcription = dg.transcription();
    let builder = transcription
        .stream_request_with_options(options)
        .vad_events(false)
        .no_delay(true)
        .interim_results(true)
        .utterance_end_ms(1000)
        .endpointing(Endpointing::CustomDurationMs(300))
        .channels(2)
        .sample_rate(44100)
        .encoding(Encoding::Linear16);
    assert_eq!(
        builder.query_pairs(),
        vec![
            pair("model", "nova-2"),
            pair("detect_language", "true"),
            pair("encoding", "linear16"),
            pair("sample_rate", "44100"),
            pair("channels", "2"),
            pair("endpointing", "300"),
            pair("utterance_end_ms", "1000"),
            pair("interim_results", "true"),
            pair("no_delay", "true"),
            pair("vad_events", "false"),
        ]
    );
    assert_eq!(
        builder.urlencoded(),
        "model=nova-2&detect_language=true&encoding=linear16&sample_rate=44100&channels=2&endpointing=300&utterance_end_ms=1000&interim_results=true&no_delay=true&vad_events=false"
    );
    assert_eq!(
        builder.as_url().unwrap(),
        "wss://api.deepgram.com/v1/listen?model=nova-2&detect_language=true&encoding=linear16&sample_rate=44100&channels=2&endpointing=300&utterance_end_ms=1000&interim_results=true&no_delay=true&vad_events=false"
    );
}

#[test]
fn the_order_of_the_setters_does_not_show() {
    let dg = Deepgram::new("token");
    let transcription = dg.transcription();
    let one = transcription
        .stream_request()
        .encoding(Encoding::Flac)
        .sample_rate(8000)
        .no_delay(true);
    let other = transcription
        .stream_request()
        .no_delay(true)
        .sample_rate(8000)
        .encoding(Encoding::Flac);
    assert_eq!(one.urlencoded(), other.urlencoded());
    assert_eq!(one.urlencoded(), "encoding=flac&sample_rate=8000&no_delay=true");
    assert_eq!(one.urlencoded(), one.urlencoded());
    assert_eq!(one.as_url().unwrap(), other.as_url().unwrap());
}

#[test]
fn a_request_without_settings_has_an_empty_query() {
    let dg = Deepgram::new("token");
    let transcription = dg.transcription();
    let builder = transcription.stream_request();
    assert_eq!(builder.urlencoded(), "");
    assert!(builder.query_pairs().is_empty());
    assert_eq!(builder.as_url().unwrap(), "wss://api.deepgram.com/v1/listen?");
    assert!(!builder.keeps_alive());
    assert!(builder.keep_alive().keeps_alive());
}

#[test]
fn special_characters_are_escaped_and_come_back_when_decoded() {
    let dg = Deepgram::with_base_url("http://localhost:8080").unwrap();
    let options = Options::builder()
        .tag(vec!["A&R", "a=b c", "50%+", "été"])
        .query_params(vec![pair("x&y", "1/2?#")])
        .build();
    let transcription = dg.transcription();
    let builder = transcription
        .stream_request_with_options(options.clone())
        .encoding(Encoding::CustomEncoding("my enc&".to_string()));
    let query = builder.urlencoded();
    assert_eq!(
        query,
        "tag=A%26R&tag=a%3Db+c&tag=50%25%2B&tag=%C3%A9t%C3%A9&x%26y=1%2F2%3F%23&encoding=my+enc%26"
    );
    let decoded: Vec<(String, String)> = serde_urlencoded::from_str(&query).unwrap();
    assert_eq!(decoded, builder.query_pairs());
    let generic: Vec<(String, String)> =
        serde_urlencoded::from_str(&options.urlencoded().unwrap()).unwrap();
    assert_eq!(generic, options.query_pairs());
    assert_eq!(
        builder.as_url().unwrap(),
        format!("ws://localhost:8080/v1/listen?{}", query)
    );
}

#[test]
fn encodings_and_endpointing_have_their_texts() {
    assert_eq!(Encoding::Linear16.as_str(), "linear16");
    assert_eq!(Encoding::Flac.as_str(), "flac");
    assert_eq!(Encoding::Mulaw.as_str(), "mulaw");
    assert_eq!(Encoding::AmrNb.as_str(), "amr-nb");
    assert_eq!(Encoding::AmrWb.as_str(), "amr-wb");
    assert_eq!(Encoding::Opus.as_str(), "opus");
    assert_eq!(Encoding::Speex.as_str(), "speex");
    assert_eq!(Encoding::CustomEncoding("x".to_string()).as_str(), "x");
    assert_eq!(Endpointing::Enabled.to_text(), "true");
    assert_eq!(Endpointing::Disabled.to_text(), "false");
    assert_eq!(Endpointing::CustomDurationMs(0).to_text(), "0");
    assert_eq!(Endpointing::CustomDurationMs(u32::MAX).to_text(), "4294967295");
}

#[test]
fn tags_of_models_languages_and_redactions() {
    assert_eq!(Model::Nova2.as_ref(), "nova-2");
    assert_eq!(Model::Nova2Automotive.as_ref(), "nova-2-automotive");
    assert_eq!(Model::Conversationalai.as_ref(), "conversationalai");
    assert_eq!(Model::CustomId("mine".to_string()).as_ref(), "mine");
    assert_eq!(Language::de_CH.as_ref(), "de-CH");
    assert_eq!(Language::es_419.as_ref(), "es-419");
    assert_eq!(Language::zh_Hant.as_ref(), "zh-Hant");
    assert_eq!(Language::Other("tlh".to_string()).as_ref(), "tlh");
    assert_eq!(Redact::Pci.as_ref(), "pci");
    assert_eq!(Redact::Numbers.as_ref(), "numbers");
    assert_eq!(Redact::Ssn.as_ref(), "ssn");
    assert_eq!(Redact::Other("iban".to_string()).as_ref(), "iban");
}

#[test]
fn a_model_set_later_drops_the_models_of_the_channels() {
    let options1 = Options::builder()
        .multichannel_with_models(vec![Model::Nova2Meeting, Model::Nova2Phonecall])
        .model(Model::Nova2)
        .build();
    let options2 = Options::builder().multichannel(true).model(Model::Nova2).build();
    assert_eq!(options1, options2);
    assert_eq!(options1.query_pairs(), vec![pair("model", "nova-2"), pair("multichannel", "true")]);
    let options3 = Options::builder()
        .model(Model::Base)
        .multichannel_with_models(vec![Model::Nova2Meeting])
        .multichannel_with_models(vec![Model::Nova2Phonecall])
        .build();
    assert_eq!(
        options3.query_pairs(),
        vec![pair("model", "nova-2-meeting:nova-2-phonecall"), pair("multichannel", "true")]
    );
    let options4 = Options::builder().multichannel(false).model(Model::Base).build();
    assert_eq!(options4.query_pairs(), vec![pair("model", "base"), pair("multichannel", "false")]);
}

#[test]
fn empty_options_have_no_pairs() {
    assert!(Options::builder().build().query_pairs().is_empty());
    assert_eq!(OptionsBuilder::new(), Options::builder());
    assert_eq!(OptionsBuilder::default(), OptionsBuilder::new());
    assert_eq!(Options::builder().build().urlencoded().unwrap(), "");
}

#[test]
fn own_query_parameters_come_last() {
    let options = Options::builder()
        .query_params(vec![pair("extra", "1")])
        .custom_topics(vec!["billing"])
        .detect_language(true)
        .query_params(vec![pair("more", "2")])
        .build();
    assert_eq!(
        options.urlencoded().unwrap(),
        "detect_language=true&custom_topic=billing&extra=1&more=2"
    );
}

#[test]
fn handshake_names_the_url_and_the_credential() {
    let dg = Deepgram::new("secret");
    let transcription = dg.transcription();
    let builder = transcription.stream_request().sample_rate(16000);
    let request = builder.handshake().unwrap();
    assert_eq!(request.method, "GET");
    assert_eq!(request.uri, "wss://api.deepgram.com/v1/listen?sample_rate=16000");
    let names: Vec<&str> = request.headers.iter().map(|h| h.0.as_str()).collect();
    assert_eq!(
        names,
        vec![
            "sec-websocket-key",
            "host",
            "connection",
            "upgrade",
            "sec-websocket-version",
            "authorization"
        ]
    );
    assert_eq!(request.headers[0].1.len(), 24);
    assert_eq!(request.headers[1].1, "api.deepgram.com");
    assert_eq!(request.headers[2].1, "upgrade");
    assert_eq!(request.headers[3].1, "websocket");
    assert_eq!(request.headers[4].1, "13");
    assert_eq!(request.headers[5].1, "token secret");
    let again = builder.handshake().unwrap();
    assert_eq!(again.headers[1..], request.headers[1..]);
}

#[test]
fn handshake_without_credential_has_no_authorization() {
    let dg = Deepgram::with_base_url("http://localhost:8080").unwrap();
    let request = dg.transcription().stream_request().handshake().unwrap();
    assert_eq!(request.headers.len(), 5);
    assert!(request.headers.iter().all(|h| h.0 != "authorization"));
    assert_eq!(
        upgrade_headers("KEY".to_string(), None),
        vec![
            pair("sec-websocket-key", "KEY"),
            pair("host", "api.deepgram.com"),
            pair("connection", "upgrade"),
            pair("upgrade", "websocket"),
            pair("sec-websocket-version", "13"),
        ]
    );
    let with = upgrade_request("ws://h/v1/listen?".to_string(), "KEY".to_string(), Some("abc"));
    assert_eq!(with.headers[5], pair("authorization", "token abc"));
    assert_eq!(with.uri, "ws://h/v1/listen?");
}

#[test]
fn start_prepares_a_connecting_session() {
    let dg = Deepgram::new("secret");
    let started = dg
        .transcription()
        .stream_request()
        .keep_alive()
        .stream::<Vec<u8>, std::io::Error>(vec![1, 2, 3])
        .start()
        .unwrap();
    assert_eq!(started.source, vec![1, 2, 3]);
    assert_eq!(started.session.current(), SessionState::Connecting);
    assert_eq!(started.request.uri, "wss://api.deepgram.com/v1/listen?");
    assert_eq!(started.request.headers.len(), 6);
}

#[test]
fn numbers_and_flags_as_text() {
    assert_eq!(decimal_string(0), "0");
    assert_eq!(decimal_string(7), "7");
    assert_eq!(decimal_string(10), "10");
    assert_eq!(decimal_string(44100), "44100");
    assert_eq!(decimal_string(1234567890), "1234567890");
    assert_eq!(decimal_string(u64::MAX), u64::MAX.to_string());
    assert_eq!(flag_string(true), "true");
    assert_eq!(flag_string(false), "false");
    assert_eq!(glued("a", ":", "b"), "a:b");
    assert!(same_text("ws", "ws"));
    assert!(!same_text("ws", "wss"));
}

#[test]
fn project_options_keep_what_was_set() {
    let options = ProjectOptions::builder().company("Deepgram").name("DG Project").build();
    assert_eq!(options.name(), Some("DG Project"));
    assert_eq!(options.company(), Some("Deepgram"));
    let none = ProjectOptionsBuilder::new().build();
    assert_eq!(none.name(), None);
    assert_eq!(none.company(), None);
    assert_eq!(ProjectOptionsBuilder::default(), ProjectOptionsBuilder::new());
    assert_eq!(
        ProjectOptions::builder().name("a").name("b").build(),
        ProjectOptions::builder().name("b").build()
    );
}

#[test]
fn a_key_is_not_shown() {
    let key = RedactedString("secret".to_string());
    assert_eq!(key.shown(), "***");
    assert_eq!(key.deref(), "secret");
}

#[test]
fn errors_tell_an_unfit_base_url_apart() {
    assert!(DeepgramError::InvalidBaseUrl.is_invalid_base_url());
    assert!(!DeepgramError::NoSource.is_invalid_base_url());
}

#[test]
fn answers_hold_their_fields() {
    let scopes = deepgram::manage::response::scopes(vec!["member".to_string()]);
    assert_eq!(scopes.scopes, vec!["member".to_string()]);
    let message = deepgram::manage::response::message("done".to_string());
    assert_eq!(message.message, "done");
    let _: (Message, Scopes) = (message, scopes);
}
