//! The setters of the options builder: one for each feature.

use vstd::prelude::*;
use crate::options::language::Language;
use crate::options::model::Model;
use crate::options::pairs::{KeywordView, MultichannelView, OptionsView, UtterancesView};
use crate::options::redact::Redact;
use crate::options::{
    keywords_view, plain_keywords, replaces_view, Keyword, Multichannel, OptionsBuilder, Replace,
    Utterances,
};
use crate::text::{extend_texts, owned, pairs_view, strs_view};

verus! {

/// What the multichannel feature holds once a single model has been chosen: as before,
/// but without models for the channels.
pub open spec fn without_models(multichannel: Option<MultichannelView>) -> Option<
    MultichannelView,
> {
    match multichannel {
        Some(MultichannelView::Enabled { models }) => Some(
            MultichannelView::Enabled { models: None },
        ),
        other => other,
    }
}

/// What the multichannel feature holds once models for the channels have been given:
/// those given before, if any, and then the new ones.
pub open spec fn with_models(multichannel: Option<MultichannelView>, models: Seq<Model>) -> Option<
    MultichannelView,
> {
    match multichannel {
        Some(MultichannelView::Enabled { models: Some(before) }) => Some(
            MultichannelView::Enabled { models: Some(before + models) },
        ),
        _ => Some(MultichannelView::Enabled { models: Some(models) }),
    }
}

impl OptionsBuilder {
    /// Sets the model. Models given for the channels are dropped; whether the channels
    /// are transcribed separately stays as it was.
    pub fn model(self, model: Model) -> (r: Self)
        ensures
            r@ == (OptionsView {
                model: Some(model),
                multichannel: without_models(self@.multichannel),
                ..self@
            }),
    {
        let mut inner = self.0;
        inner.model = Some(model);
        let current = inner.multichannel;
        inner.multichannel = match current {
            Some(Multichannel::Enabled { models }) => Some(Multichannel::Enabled { models: None }),
            other => other,
        };
        OptionsBuilder(inner)
    }

    /// Sets the version of the model.
    pub fn version(self, version: &str) -> (r: Self)
        ensures
            r@ == (OptionsView { version: Some(version@), ..self@ }),
    {
        let mut inner = self.0;
        inner.version = Some(owned(version));
        OptionsBuilder(inner)
    }

    /// Sets the language of the audio.
    pub fn language(self, language: Language) -> (r: Self)
        ensures
            r@ == (OptionsView { language: Some(language), ..self@ }),
    {
        let mut inner = self.0;
        inner.language = Some(language);
        OptionsBuilder(inner)
    }

    /// Sets whether punctuation and capitalization are added.
    pub fn punctuate(self, punctuate: bool) -> (r: Self)
        ensures
            r@ == (OptionsView { punctuate: Some(punctuate), ..self@ }),
    {
        let mut inner = self.0;
        inner.punctuate = Some(punctuate);
        OptionsBuilder(inner)
    }

    /// Sets whether profanity is removed.
    pub fn profanity_filter(self, profanity_filter: bool) -> (r: Self)
        ensures
            r@ == (OptionsView { profanity_filter: Some(profanity_filter), ..self@ }),
    {
        let mut inner = self.0;
        inner.profanity_filter = Some(profanity_filter);
        OptionsBuilder(inner)
    }

    /// Adds kinds of sensitive information to redact, after those already there.
    pub fn redact(self, redact: Vec<Redact>) -> (r: Self)
        ensures
            r@ == (OptionsView { redact: self@.redact + redact@, ..self@ }),
    {
        let mut inner = self.0;
        let mut items = redact;
        inner.redact.append(&mut items);
        OptionsBuilder(inner)
    }

    /// Sets whether speakers are told apart.
    pub fn diarize(self, diarize: bool) -> (r: Self)
        ensures
            r@ == (OptionsView { diarize: Some(diarize), ..self@ }),
    {
        let mut inner = self.0;
        inner.diarize = Some(diarize);
        OptionsBuilder(inner)
    }

    /// Sets whether named entities are recognised.
    pub fn ner(self, ner: bool) -> (r: Self)
        ensures
            r@ == (OptionsView { ner: Some(ner), ..self@ }),
    {
        let mut inner = self.0;
        inner.ner = Some(ner);
        OptionsBuilder(inner)
    }

    /// Sets whether each channel is transcribed on its own. Models given for the
    /// channels before are dropped.
    pub fn multichannel(self, multichannel: bool) -> (r: Self)
        ensures
            r@ == (OptionsView {
                multichannel: Some(
                    if multichannel {
                        MultichannelView::Enabled { models: None }
                    } else {
                        MultichannelView::Disabled
                    },
                ),
                ..self@
            }),
    {
        let mut inner = self.0;
        inner.multichannel = Some(
            if multichannel {
                Multichannel::Enabled { models: None }
            } else {
                Multichannel::Disabled
            },
        );
        OptionsBuilder(inner)
    }

    /// Has each channel transcribed on its own, with `models` in the order of the
    /// channels. Models given in this way before are kept, and the new ones follow them.
    pub fn multichannel_with_models(self, models: Vec<Model>) -> (r: Self)
        ensures
            r@ == (OptionsView {
                multichannel: with_models(self@.multichannel, models@),
                ..self@
            }),
    {
        let mut inner = self.0;
        let mut items = models;
        let current = inner.multichannel;
        inner.multichannel = match current {
            Some(Multichannel::Enabled { models: Some(before) }) => {
                let mut all = before;
                all.append(&mut items);
                Some(Multichannel::Enabled { models: Some(all) })
            },
            _ => Some(Multichannel::Enabled { models: Some(items) }),
        };
        OptionsBuilder(inner)
    }

    /// Sets how many alternative transcripts are returned.
    pub fn alternatives(self, alternatives: usize) -> (r: Self)
        ensures
            r@ == (OptionsView { alternatives: Some(alternatives), ..self@ }),
    {
        let mut inner = self.0;
        inner.alternatives = Some(alternatives);
        OptionsBuilder(inner)
    }

    /// Sets whether numbers are written with digits.
    pub fn numerals(self, numerals: bool) -> (r: Self)
        ensures
            r@ == (OptionsView { numerals: Some(numerals), ..self@ }),
    {
        let mut inner = self.0;
        inner.numerals = Some(numerals);
        OptionsBuilder(inner)
    }

    /// Adds terms to search for, after those already there.
    pub fn search(self, search: Vec<&str>) -> (r: Self)
        ensures
            r@ == (OptionsView { search: self@.search + strs_view(search@), ..self@ }),
    {
        let mut inner = self.0;
        extend_texts(&mut inner.search, &search);
        OptionsBuilder(inner)
    }

    /// Adds replacements, after those already there.
    pub fn replace(self, replace: Vec<Replace>) -> (r: Self)
        ensures
            r@ == (OptionsView { replace: self@.replace + replaces_view(replace@), ..self@ }),
    {
        let mut inner = self.0;
        let mut items = replace;
        let ghost before = inner.replace@;
        inner.replace.append(&mut items);
        assert(replaces_view(inner.replace@) =~= replaces_view(before) + replaces_view(replace@));
        OptionsBuilder(inner)
    }

    /// Adds keywords without a boost, after the keywords already there.
    pub fn keywords(self, keywords: Vec<&str>) -> (r: Self)
        ensures
            r@ == (OptionsView {
                keywords: self@.keywords + plain_keywords(strs_view(keywords@)),
                ..self@
            }),
    {
        let mut inner = self.0;
        let ghost start = inner.keywords@;
        let mut i: usize = 0;
        while i < keywords.len()
            invariant
                i <= keywords.len(),
                keywords_view(inner.keywords@) == keywords_view(start) + plain_keywords(
                    strs_view(keywords@.take(i as int)),
                ),
                inner == (crate::options::Options { keywords: inner.keywords, ..self.0 }),
            decreases keywords.len() - i,
        {
            let ghost before = inner.keywords@;
            inner.keywords.push(Keyword { keyword: owned(keywords[i]), intensifier: None });
            proof {
                let added = KeywordView { keyword: keywords@[i as int]@, intensifier: None };
                assert(keywords_view(inner.keywords@) =~= keywords_view(before).push(added));
            }
            i = i + 1;
        }
        assert(keywords@.take(i as int) =~= keywords@);
        OptionsBuilder(inner)
    }

    /// Adds keywords, each with its boost if it has one, after the keywords already there.
    pub fn keywords_with_intensifiers(self, keywords: Vec<Keyword>) -> (r: Self)
        ensures
            r@ == (OptionsView { keywords: self@.keywords + keywords_view(keywords@), ..self@ }),
    {
        let mut inner = self.0;
        let mut items = keywords;
        let ghost before = inner.keywords@;
        inner.keywords.append(&mut items);
        assert(keywords_view(inner.keywords@) =~= keywords_view(before) + keywords_view(keywords@));
        OptionsBuilder(inner)
    }

    /// Asks for the legacy way of boosting keywords.
    pub fn keyword_boost_legacy(self) -> (r: Self)
        ensures
            r@ == (OptionsView { keyword_boost_legacy: true, ..self@ }),
    {
        let mut inner = self.0;
        inner.keyword_boost_legacy = true;
        OptionsBuilder(inner)
    }

    /// Sets whether the transcript is split into utterances. A pause length given
    /// before is dropped.
    pub fn utterances(self, utterances: bool) -> (r: Self)
        ensures
            r@ == (OptionsView {
                utterances: Some(
                    if utterances {
                        UtterancesView::Enabled { utt_split: None }
                    } else {
                        UtterancesView::Disabled
                    },
                ),
                ..self@
            }),
    {
        let mut inner = self.0;
        inner.utterances = Some(
            if utterances {
                Utterances::Enabled { utt_split: None }
            } else {
                Utterances::Disabled
            },
        );
        OptionsBuilder(inner)
    }

    /// Has the transcript split into utterances at pauses of `utt_split` seconds:
    /// a number, written in decimal as it goes into the request.
    pub fn utterances_with_utt_split(self, utt_split: &str) -> (r: Self)
        ensures
            r@ == (OptionsView {
                utterances: Some(UtterancesView::Enabled { utt_split: Some(utt_split@) }),
                ..self@
            }),
    {
        let mut inner = self.0;
        inner.utterances = Some(Utterances::Enabled { utt_split: Some(owned(utt_split)) });
        OptionsBuilder(inner)
    }

    /// Adds tags to the request, after those already there.
    pub fn tag(self, tag: Vec<&str>) -> (r: Self)
        ensures
            r@ == (OptionsView { tags: self@.tags + strs_view(tag@), ..self@ }),
    {
        let mut inner = self.0;
        extend_texts(&mut inner.tags, &tag);
        OptionsBuilder(inner)
    }

    /// Sets whether the language of the audio is detected.
    pub fn detect_language(self, detect_language: bool) -> (r: Self)
        ensures
            r@ == (OptionsView { detect_language: Some(detect_language), ..self@ }),
    {
        let mut inner = self.0;
        inner.detect_language = Some(detect_language);
        OptionsBuilder(inner)
    }

    /// Adds topics to detect, after those already there.
    pub fn custom_topics(self, topics: Vec<&str>) -> (r: Self)
        ensures
            r@ == (OptionsView {
                custom_topics: self@.custom_topics + strs_view(topics@),
                ..self@
            }),
    {
        let mut inner = self.0;
        extend_texts(&mut inner.custom_topics, &topics);
        OptionsBuilder(inner)
    }

    /// Adds query parameters that go into the request as they are, after those
    /// already there.
    pub fn query_params(self, params: Vec<(String, String)>) -> (r: Self)
        ensures
            r@ == (OptionsView {
                query_params: self@.query_params + pairs_view(params@),
                ..self@
            }),
    {
        let mut inner = self.0;
        let mut items = params;
        let ghost before = inner.query_params@;
        inner.query_params.append(&mut items);
        assert(pairs_view(inner.query_params@) =~= pairs_view(before) + pairs_view(params@));
        OptionsBuilder(inner)
    }
}

} // verus!
