//! Requests for live transcription over a WebSocket.

use vstd::prelude::*;
use std::marker::PhantomData;
use crate::listen::session::{Session, SessionState};
use vstd::string::StringExecFns;
use crate::endpoint::{encode_pairs, form_urlencoded, resolve_stream_url, stream_url};
use crate::error::DeepgramError;
use crate::listen::handshake::{generate_key, handshake_headers, upgrade_request, HandshakeRequest};
use crate::options::encode::{push_flag, push_text};
use crate::options::encoding::{Encoding, Endpointing};
use crate::options::pairs::{flag_pairs, query_pairs, text_pairs, OptionsView};
use crate::options::Options;
use crate::text::{decimal, decimal_string, pairs_view, push_pair};
use crate::{Deepgram, Transcription};

verus! {

/// What a [`StreamRequestBuilder`] holds.
pub struct StreamRequestView {
    /// The base URL of the client.
    pub base: Seq<char>,
    /// The key of the client, if it has one.
    pub key: Option<Seq<char>>,
    /// The features asked of the transcription.
    pub options: OptionsView,
    pub encoding: Option<Encoding>,
    pub sample_rate: Option<u32>,
    pub channels: Option<u16>,
    pub endpointing: Option<Endpointing>,
    pub utterance_end_ms: Option<u16>,
    pub interim_results: Option<bool>,
    pub no_delay: Option<bool>,
    pub vad_events: Option<bool>,
    pub keep_alive: Option<bool>,
}

/// Builds a request for live transcription, one setting at a time.
pub struct StreamRequestBuilder<'a> {
    deepgram: &'a Deepgram,
    options: Options,
    encoding: Option<Encoding>,
    sample_rate: Option<u32>,
    channels: Option<u16>,
    endpointing: Option<Endpointing>,
    utterance_end_ms: Option<u16>,
    interim_results: Option<bool>,
    no_delay: Option<bool>,
    vad_events: Option<bool>,
    keep_alive: Option<bool>,
}

impl<'a> View for StreamRequestBuilder<'a> {
    type V = StreamRequestView;

    closed spec fn view(&self) -> StreamRequestView {
        StreamRequestView {
            base: self.deepgram.base(),
            key: self.deepgram.key(),
            options: self.options@,
            encoding: self.encoding,
            sample_rate: self.sample_rate,
            channels: self.channels,
            endpointing: self.endpointing,
            utterance_end_ms: self.utterance_end_ms,
            interim_results: self.interim_results,
            no_delay: self.no_delay,
            vad_events: self.vad_events,
            keep_alive: self.keep_alive,
        }
    }
}

/// A request in which no streaming setting is made.
pub open spec fn unset_request(
    base: Seq<char>,
    key: Option<Seq<char>>,
    options: OptionsView,
) -> StreamRequestView {
    StreamRequestView {
        base,
        key,
        options,
        encoding: None,
        sample_rate: None,
        channels: None,
        endpointing: None,
        utterance_end_ms: None,
        interim_results: None,
        no_delay: None,
        vad_events: None,
        keep_alive: None,
    }
}

impl Transcription<'_> {
    /// Starts a request for live transcription in which no feature is set.
    pub fn stream_request(&self) -> (r: StreamRequestBuilder<'_>)
        ensures
            r@ == unset_request(self.0.base(), self.0.key(), OptionsView::unset()),
    {
        self.stream_request_with_options(Options::builder().build())
    }

    /// Starts a request for live transcription with the given features.
    pub fn stream_request_with_options(&self, options: Options) -> (r: StreamRequestBuilder<'_>)
        ensures
            r@ == unset_request(self.0.base(), self.0.key(), options@),
    {
        StreamRequestBuilder {
            deepgram: self.0,
            options,
            encoding: None,
            sample_rate: None,
            channels: None,
            endpointing: None,
            utterance_end_ms: None,
            interim_results: None,
            no_delay: None,
            vad_events: None,
            keep_alive: None,
        }
    }

    /// The URL of the streaming endpoint of this client: the path `v1/listen` under
    /// its base URL, with `ws` in place of `http` and `wss` in place of `https`.
    /// Gives [`DeepgramError::InvalidBaseUrl`] where the base URL has no such endpoint.
    pub fn listen_stream_url(&self) -> (r: Result<String, DeepgramError>)
        ensures
            match stream_url(self.0.base()) {
                Some(href) => r matches Ok(url) && url@ == href,
                None => r matches Err(DeepgramError::InvalidBaseUrl),
            },
    {
        resolve_stream_url(self.0.base_url())
    }
}

impl<'a> StreamRequestBuilder<'a> {
    /// Sets the encoding of the audio.
    pub fn encoding(self, encoding: Encoding) -> (r: Self)
        ensures
            r@ == (StreamRequestView { encoding: Some(encoding), ..self@ }),
    {
        let mut this = self;
        this.encoding = Some(encoding);
        this
    }

    /// Sets the sample rate of the audio, in hertz.
    pub fn sample_rate(self, sample_rate: u32) -> (r: Self)
        ensures
            r@ == (StreamRequestView { sample_rate: Some(sample_rate), ..self@ }),
    {
        let mut this = self;
        this.sample_rate = Some(sample_rate);
        this
    }

    /// Sets the number of channels of the audio.
    pub fn channels(self, channels: u16) -> (r: Self)
        ensures
            r@ == (StreamRequestView { channels: Some(channels), ..self@ }),
    {
        let mut this = self;
        this.channels = Some(channels);
        this
    }

    /// Sets when a silence is taken for the end of speech.
    pub fn endpointing(self, endpointing: Endpointing) -> (r: Self)
        ensures
            r@ == (StreamRequestView { endpointing: Some(endpointing), ..self@ }),
    {
        let mut this = self;
        this.endpointing = Some(endpointing);
        this
    }

    /// Sets after how many milliseconds without a word the end of an utterance is
    /// reported.
    pub fn utterance_end_ms(self, utterance_end_ms: u16) -> (r: Self)
        ensures
            r@ == (StreamRequestView { utterance_end_ms: Some(utterance_end_ms), ..self@ }),
    {
        let mut this = self;
        this.utterance_end_ms = Some(utterance_end_ms);
        this
    }

    /// Sets whether results that may still change are sent.
    pub fn interim_results(self, interim_results: bool) -> (r: Self)
        ensures
            r@ == (StreamRequestView { interim_results: Some(interim_results), ..self@ }),
    {
        let mut this = self;
        this.interim_results = Some(interim_results);
        this
    }

    /// Sets whether results are sent without waiting for more context.
    pub fn no_delay(self, no_delay: bool) -> (r: Self)
        ensures
            r@ == (StreamRequestView { no_delay: Some(no_delay), ..self@ }),
    {
        let mut this = self;
        this.no_delay = Some(no_delay);
        this
    }

    /// Sets whether the start of speech is reported.
    pub fn vad_events(self, vad_events: bool) -> (r: Self)
        ensures
            r@ == (StreamRequestView { vad_events: Some(vad_events), ..self@ }),
    {
        let mut this = self;
        this.vad_events = Some(vad_events);
        this
    }

    /// Has the connection kept alive by a message every ten seconds.
    pub fn keep_alive(self) -> (r: Self)
        ensures
            r@ == (StreamRequestView { keep_alive: Some(true), ..self@ }),
    {
        let mut this = self;
        this.keep_alive = Some(true);
        this
    }
}

/// One pair if the number is there, none if it is not.
pub open spec fn number_pairs(key: Seq<char>, number: Option<nat>) -> Seq<(Seq<char>, Seq<char>)> {
    match number {
        Some(n) => seq![(key, decimal(n))],
        None => Seq::empty(),
    }
}

/// The query parameters of the streaming settings, in their fixed order: `encoding`,
/// `sample_rate`, `channels`, `endpointing`, `utterance_end_ms`, `interim_results`,
/// `no_delay`, `vad_events`. A setting that was not made gives no pair.
pub open spec fn streaming_pairs(v: StreamRequestView) -> Seq<(Seq<char>, Seq<char>)> {
    text_pairs(
        "encoding"@,
        match v.encoding {
            Some(e) => Some(e.text()),
            None => None,
        },
    ) + number_pairs(
        "sample_rate"@,
        match v.sample_rate {
            Some(n) => Some(n as nat),
            None => None,
        },
    ) + number_pairs(
        "channels"@,
        match v.channels {
            Some(n) => Some(n as nat),
            None => None,
        },
    ) + text_pairs(
        "endpointing"@,
        match v.endpointing {
            Some(e) => Some(e.text()),
            None => None,
        },
    ) + number_pairs(
        "utterance_end_ms"@,
        match v.utterance_end_ms {
            Some(n) => Some(n as nat),
            None => None,
        },
    ) + flag_pairs("interim_results"@, v.interim_results) + flag_pairs("no_delay"@, v.no_delay)
        + flag_pairs("vad_events"@, v.vad_events)
}

/// All query parameters of a request: those of the features first, in their own
/// order, then those of the streaming settings.
pub open spec fn request_pairs(v: StreamRequestView) -> Seq<(Seq<char>, Seq<char>)> {
    query_pairs(v.options) + streaming_pairs(v)
}

/// The query string of a request.
pub open spec fn request_query(v: StreamRequestView) -> Seq<char> {
    form_urlencoded(request_pairs(v))
}

/// The URL of a request: that of the streaming endpoint, a question mark, and the
/// query string. None where the base URL has no streaming endpoint.
///
/// The URL of the endpoint has neither a query nor a fragment, by [`stream_url`]. To
/// such a URL `url::Url::query_pairs_mut` adds the question mark at the end and, after
/// it, what its serializer makes of the pairs.
pub open spec fn request_url(v: StreamRequestView) -> Option<Seq<char>> {
    match stream_url(v.base) {
        Some(href) => Some(href + "?"@ + request_query(v)),
        None => None,
    }
}

fn push_number(out: &mut Vec<(String, String)>, key: &str, number: Option<u64>)
    ensures
        pairs_view(final(out)@) == pairs_view(old(out)@) + number_pairs(
            key@,
            match number {
                Some(n) => Some(n as nat),
                None => None,
            },
        ),
{
    match number {
        Some(n) => push_pair(out, key, decimal_string(n)),
        None => {},
    }
}

impl<'a> StreamRequestBuilder<'a> {
    /// The streaming settings as query parameters, in their fixed order.
    fn streaming_query_pairs(&self) -> (r: Vec<(String, String)>)
        ensures
            pairs_view(r@) == streaming_pairs(self@),
    {
        let mut out: Vec<(String, String)> = Vec::new();
        push_text(
            &mut out,
            "encoding",
            match &self.encoding {
                Some(e) => Some(e.as_str()),
                None => None,
            },
        );
        push_number(
            &mut out,
            "sample_rate",
            match self.sample_rate {
                Some(n) => Some(n as u64),
                None => None,
            },
        );
        push_number(
            &mut out,
            "channels",
            match self.channels {
                Some(n) => Some(n as u64),
                None => None,
            },
        );
        let endpointing = match &self.endpointing {
            Some(e) => Some(e.to_text()),
            None => None,
        };
        push_text(
            &mut out,
            "endpointing",
            match &endpointing {
                Some(text) => Some(text.as_str()),
                None => None,
            },
        );
        push_number(
            &mut out,
            "utterance_end_ms",
            match self.utterance_end_ms {
                Some(n) => Some(n as u64),
                None => None,
            },
        );
        push_flag(&mut out, "interim_results", self.interim_results);
        push_flag(&mut out, "no_delay", self.no_delay);
        push_flag(&mut out, "vad_events", self.vad_events);
        out
    }

    /// All query parameters of this request, in order: those of the features, then
    /// those of the streaming settings.
    pub fn query_pairs(&self) -> (r: Vec<(String, String)>)
        ensures
            pairs_view(r@) == request_pairs(self@),
    {
        let mut out = self.options.query_pairs();
        let mut streaming = self.streaming_query_pairs();
        out.append(&mut streaming);
        out
    }

    /// The query string of this request: its query parameters in
    /// `application/x-www-form-urlencoded` syntax.
    pub fn urlencoded(&self) -> (r: String)
        ensures
            r@ == request_query(self@),
    {
        let pairs = self.query_pairs();
        encode_pairs(&pairs)
    }

    /// The request that opens the WebSocket for this request, with a new random key: a
    /// `GET` of [`as_url`](Self::as_url) with the headers of [`handshake_headers`], the
    /// `authorization` header among them only where the client has a key. Gives
    /// [`DeepgramError::InvalidBaseUrl`] where the base URL of the client has no
    /// streaming endpoint.
    pub fn handshake(&self) -> (r: Result<HandshakeRequest, DeepgramError>)
        ensures
            match request_url(self@) {
                Some(href) => r matches Ok(request) && request.method@ == "GET"@ && request.uri@
                    == href && pairs_view(request.headers@).len() >= 1 && pairs_view(
                    request.headers@,
                )[0].1.len() == 24 && pairs_view(request.headers@) == handshake_headers(
                    pairs_view(request.headers@)[0].1,
                    self@.key,
                ),
                None => r matches Err(DeepgramError::InvalidBaseUrl),
            },
    {
        match self.as_url() {
            Ok(url) => Ok(upgrade_request(url, generate_key(), self.deepgram.api_key())),
            Err(e) => Err(e),
        }
    }

    /// Whether the connection is kept alive by a message every ten seconds: so it is
    /// where that was asked for, and not otherwise.
    pub fn keeps_alive(&self) -> (r: bool)
        ensures
            r == (self@.keep_alive == Some(true)),
    {
        match self.keep_alive {
            Some(flag) => flag,
            None => false,
        }
    }

    /// The URL of this request: that of the streaming endpoint, a question mark, and
    /// the query string. Gives [`DeepgramError::InvalidBaseUrl`] where the base URL of
    /// the client has no streaming endpoint.
    pub fn as_url(&self) -> (r: Result<String, DeepgramError>)
        ensures
            match request_url(self@) {
                Some(href) => r matches Ok(url) && url@ == href,
                None => r matches Err(DeepgramError::InvalidBaseUrl),
            },
    {
        match resolve_stream_url(self.deepgram.base_url()) {
            Ok(href) => {
                let mut url = href;
                url.append("?");
                url.append(self.urlencoded().as_str());
                Ok(url)
            },
            Err(e) => Err(e),
        }
    }
}

/// The same settings give the same query string and the same URL, character for
/// character.
pub proof fn lemma_query_deterministic(a: StreamRequestView, b: StreamRequestView)
    requires
        a == b,
    ensures
        request_pairs(a) == request_pairs(b),
        request_query(a) == request_query(b),
        request_url(a) == request_url(b),
{
}

/// The query parameters of the features come first and are not touched by the
/// streaming settings; those of the streaming settings follow, at most one for each
/// setting.
pub proof fn lemma_features_first(v: StreamRequestView)
    ensures
        request_pairs(v).len() == query_pairs(v.options).len() + streaming_pairs(v).len(),
        request_pairs(v).take(query_pairs(v.options).len() as int) == query_pairs(v.options),
        request_pairs(v).skip(query_pairs(v.options).len() as int) == streaming_pairs(v),
        streaming_pairs(v).len() <= 8,
{
}

/// What was not set gives no query parameter: a request in which no feature and no
/// streaming setting is set has none at all.
pub proof fn lemma_unset_gives_no_pairs(base: Seq<char>, key: Option<Seq<char>>)
    ensures
        query_pairs(OptionsView::unset()) == Seq::<(Seq<char>, Seq<char>)>::empty(),
        streaming_pairs(unset_request(base, key, OptionsView::unset())) == Seq::<
            (Seq<char>, Seq<char>),
        >::empty(),
        request_pairs(unset_request(base, key, OptionsView::unset())) == Seq::<
            (Seq<char>, Seq<char>),
        >::empty(),
{
}

/// The order in which the streaming settings are made does not show in the request:
/// made in one order or in the opposite one, they give the same settings, and so the
/// same query parameters in the same order.
pub proof fn lemma_setting_order(
    v: StreamRequestView,
    encoding: Encoding,
    sample_rate: u32,
    channels: u16,
    endpointing: Endpointing,
    utterance_end_ms: u16,
    interim_results: bool,
    no_delay: bool,
    vad_events: bool,
)
    ensures
        ({
            let a1 = StreamRequestView { encoding: Some(encoding), ..v };
            let a2 = StreamRequestView { sample_rate: Some(sample_rate), ..a1 };
            let a3 = StreamRequestView { channels: Some(channels), ..a2 };
            let a4 = StreamRequestView { endpointing: Some(endpointing), ..a3 };
            let a5 = StreamRequestView { utterance_end_ms: Some(utterance_end_ms), ..a4 };
            let a6 = StreamRequestView { interim_results: Some(interim_results), ..a5 };
            let a7 = StreamRequestView { no_delay: Some(no_delay), ..a6 };
            let a8 = StreamRequestView { vad_events: Some(vad_events), ..a7 };
            let b1 = StreamRequestView { vad_events: Some(vad_events), ..v };
            let b2 = StreamRequestView { no_delay: Some(no_delay), ..b1 };
            let b3 = StreamRequestView { interim_results: Some(interim_results), ..b2 };
            let b4 = StreamRequestView { utterance_end_ms: Some(utterance_end_ms), ..b3 };
            let b5 = StreamRequestView { endpointing: Some(endpointing), ..b4 };
            let b6 = StreamRequestView { channels: Some(channels), ..b5 };
            let b7 = StreamRequestView { sample_rate: Some(sample_rate), ..b6 };
            let b8 = StreamRequestView { encoding: Some(encoding), ..b7 };
            a8 == b8 && request_pairs(a8) == request_pairs(b8) && request_query(a8)
                == request_query(b8) && streaming_pairs(a8) == seq![
                ("encoding"@, encoding.text()),
                ("sample_rate"@, decimal(sample_rate as nat)),
                ("channels"@, decimal(channels as nat)),
                ("endpointing"@, endpointing.text()),
                ("utterance_end_ms"@, decimal(utterance_end_ms as nat)),
                ("interim_results"@, crate::text::flag_text(interim_results)),
                ("no_delay"@, crate::text::flag_text(no_delay)),
                ("vad_events"@, crate::text::flag_text(vad_events)),
            ]
        }),
{
    let a1 = StreamRequestView { encoding: Some(encoding), ..v };
    let a2 = StreamRequestView { sample_rate: Some(sample_rate), ..a1 };
    let a3 = StreamRequestView { channels: Some(channels), ..a2 };
    let a4 = StreamRequestView { endpointing: Some(endpointing), ..a3 };
    let a5 = StreamRequestView { utterance_end_ms: Some(utterance_end_ms), ..a4 };
    let a6 = StreamRequestView { interim_results: Some(interim_results), ..a5 };
    let a7 = StreamRequestView { no_delay: Some(no_delay), ..a6 };
    let a8 = StreamRequestView { vad_events: Some(vad_events), ..a7 };
    assert(streaming_pairs(a8) =~= seq![
        ("encoding"@, encoding.text()),
        ("sample_rate"@, decimal(sample_rate as nat)),
        ("channels"@, decimal(channels as nat)),
        ("endpointing"@, endpointing.text()),
        ("utterance_end_ms"@, decimal(utterance_end_ms as nat)),
        ("interim_results"@, crate::text::flag_text(interim_results)),
        ("no_delay"@, crate::text::flag_text(no_delay)),
        ("vad_events"@, crate::text::flag_text(vad_events)),
    ]);
}

/// A request for live transcription together with the source of its audio.
pub struct StreamRequest<'a, S, E> {
    stream: S,
    builder: StreamRequestBuilder<'a>,
    _err: PhantomData<E>,
}

/// What is needed to run a session: the source of the audio, the request that opens
/// the connection, and the session, which is connecting.
pub struct Started<S> {
    /// The source of the audio.
    pub source: S,
    /// The request that opens the WebSocket.
    pub request: HandshakeRequest,
    /// The session, with its handshake under way.
    pub session: Session,
}

impl<'a> StreamRequestBuilder<'a> {
    /// Finishes the request by giving it the source of its audio.
    pub fn stream<S, E>(self, stream: S) -> (r: StreamRequest<'a, S, E>)
        ensures
            r.settings() == self@,
            r.source() == stream,
    {
        StreamRequest { stream, builder: self, _err: PhantomData }
    }
}

impl<'a, S, E> StreamRequest<'a, S, E> {
    /// The settings of the request.
    pub closed spec fn settings(&self) -> StreamRequestView {
        self.builder@
    }

    /// The source of the audio.
    pub closed spec fn source(&self) -> S {
        self.stream
    }

    /// Prepares the session of this request: the request that opens the WebSocket, as
    /// [`StreamRequestBuilder::handshake`] makes it, and a session that is connecting
    /// and keeps its connection alive where that was asked for. Gives
    /// [`DeepgramError::InvalidBaseUrl`] where the base URL of the client has no
    /// streaming endpoint: nothing has been sent then, and no duty runs.
    pub fn start(self) -> (r: Result<Started<S>, DeepgramError>)
        ensures
            match request_url(self.settings()) {
                Some(href) => {
                    &&& r matches Ok(started)
                    &&& started.source == self.source()
                    &&& started.session.state() == SessionState::Connecting
                    &&& started.session.keeps_alive() == (self.settings().keep_alive == Some(
                        true,
                    ))
                    &&& started.request.method@ == "GET"@
                    &&& started.request.uri@ == href
                    &&& pairs_view(started.request.headers@).len() >= 1
                    &&& pairs_view(started.request.headers@)[0].1.len() == 24
                    &&& pairs_view(started.request.headers@) == handshake_headers(
                        pairs_view(started.request.headers@)[0].1,
                        self.settings().key,
                    )
                },
                None => r matches Err(DeepgramError::InvalidBaseUrl),
            },
    {
        match self.builder.handshake() {
            Ok(request) => Ok(
                Started {
                    source: self.stream,
                    request,
                    session: Session::new(self.builder.keeps_alive()),
                },
            ),
            Err(e) => Err(e),
        }
    }
}

} // verus!
