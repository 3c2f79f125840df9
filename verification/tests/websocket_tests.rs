use deepgram::options::Options;
use deepgram::Deepgram;

#[test]
fn test_stream_url() {
    let dg = Deepgram::new("token");
    assert_eq!(
        dg.transcription().listen_stream_url().unwrap().to_string(),
        "wss://api.deepgram.com/v1/listen",
    );
}

#[test]
fn test_stream_url_custom_host() {
    let dg = Deepgram::with_base_url_and_api_key("http://localhost:8080", "token").unwrap();
    assert_eq!(
        dg.transcription().listen_stream_url().unwrap().to_string(),
        "ws://localhost:8080/v1/listen",
    );
}

#[test]
fn query_escaping() {
    let dg = Deepgram::new("token");
    let opts = Options::builder().custom_topics(vec!["A&R"]).build();
    let transcription = dg.transcription();
    let builder = transcription.stream_request_with_options(opts.clone());
    assert_eq!(builder.urlencoded(), opts.urlencoded().unwrap())
}
