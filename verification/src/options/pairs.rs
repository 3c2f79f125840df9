//! The query parameters that a set of options stands for.

use vstd::prelude::*;
use crate::options::language::Language;
use crate::options::model::{models_text, Model};
use crate::options::redact::Redact;
use crate::text::{decimal, flag_text};

verus! {

/// What a [`Replace`](crate::options::Replace) holds.
pub struct ReplaceView {
    /// The term or phrase to find.
    pub find: Seq<char>,
    /// What to put in its place, if anything.
    pub replace: Option<Seq<char>>,
}

/// What a [`Keyword`](crate::options::Keyword) holds.
pub struct KeywordView {
    /// The keyword to boost.
    pub keyword: Seq<char>,
    /// How much to boost it, as decimal text.
    pub intensifier: Option<Seq<char>>,
}

/// What a [`Multichannel`](crate::options::Multichannel) holds.
pub enum MultichannelView {
    /// Channels are not transcribed separately.
    Disabled,
    /// Channels are transcribed separately, each with its model where models are given.
    Enabled { models: Option<Seq<Model>> },
}

/// What an [`Utterances`](crate::options::Utterances) holds.
pub enum UtterancesView {
    /// The transcript is not split into utterances.
    Disabled,
    /// The transcript is split into utterances, at pauses of the given length where one is given.
    Enabled { utt_split: Option<Seq<char>> },
}

/// What a set of options holds: one field for each feature.
pub struct OptionsView {
    pub model: Option<Model>,
    pub version: Option<Seq<char>>,
    pub language: Option<Language>,
    pub punctuate: Option<bool>,
    pub profanity_filter: Option<bool>,
    pub redact: Seq<Redact>,
    pub diarize: Option<bool>,
    pub ner: Option<bool>,
    pub multichannel: Option<MultichannelView>,
    pub alternatives: Option<usize>,
    pub numerals: Option<bool>,
    pub search: Seq<Seq<char>>,
    pub replace: Seq<ReplaceView>,
    pub keywords: Seq<KeywordView>,
    pub keyword_boost_legacy: bool,
    pub utterances: Option<UtterancesView>,
    pub tags: Seq<Seq<char>>,
    pub detect_language: Option<bool>,
    pub custom_topics: Seq<Seq<char>>,
    pub query_params: Seq<(Seq<char>, Seq<char>)>,
}

impl OptionsView {
    /// The options in which no feature is set.
    pub open spec fn unset() -> OptionsView {
        OptionsView {
            model: None,
            version: None,
            language: None,
            punctuate: None,
            profanity_filter: None,
            redact: Seq::empty(),
            diarize: None,
            ner: None,
            multichannel: None,
            alternatives: None,
            numerals: None,
            search: Seq::empty(),
            replace: Seq::empty(),
            keywords: Seq::empty(),
            keyword_boost_legacy: false,
            utterances: None,
            tags: Seq::empty(),
            detect_language: None,
            custom_topics: Seq::empty(),
            query_params: Seq::empty(),
        }
    }
}

/// One pair if the text is there, none if it is not.
pub open spec fn text_pairs(key: Seq<char>, text: Option<Seq<char>>) -> Seq<(Seq<char>, Seq<char>)> {
    match text {
        Some(t) => seq![(key, t)],
        None => Seq::empty(),
    }
}

/// One pair if the flag is set, none if it is not.
pub open spec fn flag_pairs(key: Seq<char>, flag: Option<bool>) -> Seq<(Seq<char>, Seq<char>)> {
    match flag {
        Some(f) => seq![(key, flag_text(f))],
        None => Seq::empty(),
    }
}

/// One pair under the same key for each value, in order.
pub open spec fn each_pairs(key: Seq<char>, values: Seq<Seq<char>>) -> Seq<(Seq<char>, Seq<char>)> {
    values.map_values(|v: Seq<char>| (key, v))
}

/// The tags of the redacted kinds, in order.
pub open spec fn redact_texts(redact: Seq<Redact>) -> Seq<Seq<char>> {
    redact.map_values(|r: Redact| r.text())
}

/// A replacement as one value: the term alone, or the term, a colon and what replaces it.
pub open spec fn replace_text(r: ReplaceView) -> Seq<char> {
    match r.replace {
        Some(with) => r.find + ":"@ + with,
        None => r.find,
    }
}

/// The replacements as values, in order.
pub open spec fn replace_texts(replace: Seq<ReplaceView>) -> Seq<Seq<char>> {
    replace.map_values(|r: ReplaceView| replace_text(r))
}

/// A keyword as one value: the keyword alone, or the keyword, a colon and its boost.
pub open spec fn keyword_text(k: KeywordView) -> Seq<char> {
    match k.intensifier {
        Some(boost) => k.keyword + ":"@ + boost,
        None => k.keyword,
    }
}

/// The keywords as values, in order.
pub open spec fn keyword_texts(keywords: Seq<KeywordView>) -> Seq<Seq<char>> {
    keywords.map_values(|k: KeywordView| keyword_text(k))
}

/// The `model` pair: the models of the channels where they were given, else the one model
/// where it was given, else nothing.
pub open spec fn model_pairs(
    model: Option<Model>,
    multichannel: Option<MultichannelView>,
) -> Seq<(Seq<char>, Seq<char>)> {
    match multichannel {
        Some(MultichannelView::Enabled { models: Some(models) }) => seq![
            ("model"@, models_text(models)),
        ],
        _ => match model {
            Some(m) => seq![("model"@, m.text())],
            None => Seq::empty(),
        },
    }
}

/// The `multichannel` pair, where the feature was set either way.
pub open spec fn multichannel_pairs(multichannel: Option<MultichannelView>) -> Seq<
    (Seq<char>, Seq<char>),
> {
    match multichannel {
        Some(MultichannelView::Disabled) => seq![("multichannel"@, flag_text(false))],
        Some(MultichannelView::Enabled { models }) => seq![("multichannel"@, flag_text(true))],
        None => Seq::empty(),
    }
}

/// The `alternatives` pair, where a number was given.
pub open spec fn alternatives_pairs(alternatives: Option<usize>) -> Seq<(Seq<char>, Seq<char>)> {
    match alternatives {
        Some(n) => seq![("alternatives"@, decimal(n as nat))],
        None => Seq::empty(),
    }
}

/// The `keyword_boost` pair, where the legacy boost was asked for.
pub open spec fn legacy_pairs(legacy: bool) -> Seq<(Seq<char>, Seq<char>)> {
    if legacy {
        seq![("keyword_boost"@, "legacy"@)]
    } else {
        Seq::empty()
    }
}

/// The `utterances` pair, where the feature was set either way, and after it the
/// `utt_split` pair, where a pause length was given.
pub open spec fn utterances_pairs(utterances: Option<UtterancesView>) -> Seq<
    (Seq<char>, Seq<char>),
> {
    match utterances {
        Some(UtterancesView::Disabled) => seq![("utterances"@, flag_text(false))],
        Some(UtterancesView::Enabled { utt_split }) => seq![("utterances"@, flag_text(true))]
            + text_pairs("utt_split"@, utt_split),
        None => Seq::empty(),
    }
}

/// The query parameters of a set of options, in their canonical order. A feature that
/// was not set gives no pair; a feature that holds several values gives one pair for
/// each, in the order in which they were added.
pub open spec fn query_pairs(o: OptionsView) -> Seq<(Seq<char>, Seq<char>)> {
    model_pairs(o.model, o.multichannel)
        + text_pairs("version"@, o.version)
        + text_pairs(
        "language"@,
        match o.language {
            Some(l) => Some(l.text()),
            None => None,
        },
    ) + flag_pairs("punctuate"@, o.punctuate)
        + flag_pairs("profanity_filter"@, o.profanity_filter)
        + each_pairs("redact"@, redact_texts(o.redact))
        + flag_pairs("diarize"@, o.diarize)
        + flag_pairs("ner"@, o.ner)
        + multichannel_pairs(o.multichannel)
        + alternatives_pairs(o.alternatives)
        + flag_pairs("numerals"@, o.numerals)
        + each_pairs("search"@, o.search)
        + each_pairs("replace"@, replace_texts(o.replace))
        + each_pairs("keywords"@, keyword_texts(o.keywords))
        + legacy_pairs(o.keyword_boost_legacy)
        + utterances_pairs(o.utterances)
        + each_pairs("tag"@, o.tags)
        + flag_pairs("detect_language"@, o.detect_language)
        + each_pairs("custom_topic"@, o.custom_topics)
        + o.query_params
}

} // verus!
