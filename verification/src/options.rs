//! The features that can be asked of a transcription.

use vstd::prelude::*;
use crate::options::language::Language;
use crate::options::model::Model;
use crate::options::pairs::{
    KeywordView, MultichannelView, OptionsView, ReplaceView, UtterancesView,
};
use crate::options::redact::Redact;
use crate::text::{pairs_view, texts_view};

pub mod builder;
pub mod encode;
pub mod encoding;
pub mod language;
pub mod model;
pub mod pairs;
pub mod redact;

verus! {

/// A term to find in the transcript, and what to put in its place.
#[derive(Debug, PartialEq, Eq, Clone, Hash)]
pub struct Replace {
    /// The term or phrase to find.
    pub find: String,
    /// The term or phrase to put in its place. With `None`, what was found is removed
    /// from the transcript and nothing replaces it.
    pub replace: Option<String>,
}

impl View for Replace {
    type V = ReplaceView;

    open spec fn view(&self) -> ReplaceView {
        ReplaceView {
            find: self.find@,
            replace: match self.replace {
                Some(with) => Some(with@),
                None => None,
            },
        }
    }
}

/// A keyword to which the model should pay particular attention.
#[derive(Debug, PartialEq, Eq, Clone, Hash)]
pub struct Keyword {
    /// The keyword to boost.
    pub keyword: String,
    /// How much to boost it: a number, written in decimal as it goes into the request.
    pub intensifier: Option<String>,
}

impl View for Keyword {
    type V = KeywordView;

    open spec fn view(&self) -> KeywordView {
        KeywordView {
            keyword: self.keyword@,
            intensifier: match self.intensifier {
                Some(boost) => Some(boost@),
                None => None,
            },
        }
    }
}

/// Whether the transcript is split into utterances.
#[derive(Debug, PartialEq, Eq, Clone, Hash)]
pub enum Utterances {
    /// The transcript is not split.
    Disabled,
    /// The transcript is split, at pauses of `utt_split` seconds where that is given:
    /// a number, written in decimal as it goes into the request.
    Enabled { utt_split: Option<String> },
}

impl View for Utterances {
    type V = UtterancesView;

    open spec fn view(&self) -> UtterancesView {
        match self {
            Utterances::Disabled => UtterancesView::Disabled,
            Utterances::Enabled { utt_split } => UtterancesView::Enabled {
                utt_split: match utt_split {
                    Some(t) => Some(t@),
                    None => None,
                },
            },
        }
    }
}

/// Whether each audio channel is transcribed on its own.
#[derive(Debug, PartialEq, Eq, Clone, Hash)]
pub enum Multichannel {
    /// The channels are not transcribed separately.
    Disabled,
    /// The channels are transcribed separately, with `models` in the order of the
    /// channels where they are given.
    Enabled { models: Option<Vec<Model>> },
}

impl View for Multichannel {
    type V = MultichannelView;

    open spec fn view(&self) -> MultichannelView {
        match self {
            Multichannel::Disabled => MultichannelView::Disabled,
            Multichannel::Enabled { models } => MultichannelView::Enabled {
                models: match models {
                    Some(m) => Some(m@),
                    None => None,
                },
            },
        }
    }
}

/// What a list of replacements holds.
pub open spec fn replaces_view(items: Seq<Replace>) -> Seq<ReplaceView> {
    items.map_values(|r: Replace| r@)
}

/// What a list of keywords holds.
pub open spec fn keywords_view(items: Seq<Keyword>) -> Seq<KeywordView> {
    items.map_values(|k: Keyword| k@)
}

/// The keywords that plain texts stand for: each without a boost.
pub open spec fn plain_keywords(items: Seq<Seq<char>>) -> Seq<KeywordView> {
    items.map_values(|k: Seq<char>| KeywordView { keyword: k, intensifier: None })
}

/// The features asked of a transcription. Built with an [`OptionsBuilder`].
#[derive(Debug, PartialEq, Clone)]
pub struct Options {
    model: Option<Model>,
    version: Option<String>,
    language: Option<Language>,
    punctuate: Option<bool>,
    profanity_filter: Option<bool>,
    redact: Vec<Redact>,
    diarize: Option<bool>,
    ner: Option<bool>,
    multichannel: Option<Multichannel>,
    alternatives: Option<usize>,
    numerals: Option<bool>,
    search: Vec<String>,
    replace: Vec<Replace>,
    keywords: Vec<Keyword>,
    keyword_boost_legacy: bool,
    utterances: Option<Utterances>,
    tags: Vec<String>,
    detect_language: Option<bool>,
    custom_topics: Vec<String>,
    query_params: Vec<(String, String)>,
}

impl View for Options {
    type V = OptionsView;

    closed spec fn view(&self) -> OptionsView {
        OptionsView {
            model: self.model,
            version: match self.version {
                Some(v) => Some(v@),
                None => None,
            },
            language: self.language,
            punctuate: self.punctuate,
            profanity_filter: self.profanity_filter,
            redact: self.redact@,
            diarize: self.diarize,
            ner: self.ner,
            multichannel: match self.multichannel {
                Some(m) => Some(m@),
                None => None,
            },
            alternatives: self.alternatives,
            numerals: self.numerals,
            search: texts_view(self.search@),
            replace: replaces_view(self.replace@),
            keywords: keywords_view(self.keywords@),
            keyword_boost_legacy: self.keyword_boost_legacy,
            utterances: match self.utterances {
                Some(u) => Some(u@),
                None => None,
            },
            tags: texts_view(self.tags@),
            detect_language: self.detect_language,
            custom_topics: texts_view(self.custom_topics@),
            query_params: pairs_view(self.query_params@),
        }
    }
}

/// Builds an [`Options`] value, one feature at a time.
#[derive(Debug, PartialEq, Clone)]
pub struct OptionsBuilder(Options);

impl View for OptionsBuilder {
    type V = OptionsView;

    closed spec fn view(&self) -> OptionsView {
        self.0@
    }
}

impl Options {
    /// Starts a builder in which no feature is set.
    pub fn builder() -> (r: OptionsBuilder)
        ensures
            r@ == OptionsView::unset(),
    {
        OptionsBuilder::new()
    }
}

impl OptionsBuilder {
    /// Starts a builder in which no feature is set.
    pub fn new() -> (r: Self)
        ensures
            r@ == OptionsView::unset(),
    {
        let r = OptionsBuilder(
            Options {
                model: None,
                version: None,
                language: None,
                punctuate: None,
                profanity_filter: None,
                redact: Vec::new(),
                diarize: None,
                ner: None,
                multichannel: None,
                alternatives: None,
                numerals: None,
                search: Vec::new(),
                replace: Vec::new(),
                keywords: Vec::new(),
                keyword_boost_legacy: false,
                utterances: None,
                tags: Vec::new(),
                detect_language: None,
                custom_topics: Vec::new(),
                query_params: Vec::new(),
            },
        );
        assert(r@.search =~= Seq::empty());
        assert(r@.replace =~= Seq::empty());
        assert(r@.keywords =~= Seq::empty());
        assert(r@.query_params =~= Seq::empty());
        r
    }

    /// Finishes building.
    pub fn build(self) -> (r: Options)
        ensures
            r@ == self@,
    {
        self.0
    }
}

impl Default for OptionsBuilder {
    fn default() -> (r: Self)
        ensures
            r@ == OptionsView::unset(),
    {
        Self::new()
    }
}

} // verus!
