//! Turning a set of options into its query parameters.

use vstd::prelude::*;
use crate::options::language::Language;
use crate::options::model::{models_to_string, Model};
use crate::options::pairs::{
    alternatives_pairs, each_pairs, flag_pairs, keyword_text, keyword_texts, legacy_pairs,
    model_pairs, multichannel_pairs, query_pairs, redact_texts, replace_text, replace_texts,
    text_pairs, utterances_pairs,
};
use crate::options::redact::Redact;
use crate::options::{keywords_view, replaces_view, Keyword, Multichannel, Options, Replace, Utterances};
use crate::text::{decimal_string, flag_string, glued, owned, pairs_view, push_pair, texts_view};

verus! {

/// Appends the pair of a flag to `out`, where the flag is set.
pub(crate) fn push_flag(out: &mut Vec<(String, String)>, key: &str, flag: Option<bool>)
    ensures
        pairs_view(final(out)@) == pairs_view(old(out)@) + flag_pairs(key@, flag),
{
    match flag {
        Some(f) => push_pair(out, key, flag_string(f)),
        None => {},
    }
}

/// Appends the pair of a text to `out`, where the text is there.
pub(crate) fn push_text(out: &mut Vec<(String, String)>, key: &str, text: Option<&str>)
    ensures
        pairs_view(final(out)@) == pairs_view(old(out)@) + text_pairs(
            key@,
            match text {
                Some(t) => Some(t@),
                None => None,
            },
        ),
{
    match text {
        Some(t) => push_pair(out, key, owned(t)),
        None => {},
    }
}

fn push_each(out: &mut Vec<(String, String)>, key: &str, values: &Vec<String>)
    ensures
        pairs_view(final(out)@) == pairs_view(old(out)@) + each_pairs(key@, texts_view(values@)),
{
    let mut i: usize = 0;
    while i < values.len()
        invariant
            i <= values.len(),
            pairs_view(out@) == pairs_view(old(out)@) + each_pairs(
                key@,
                texts_view(values@.take(i as int)),
            ),
        decreases values.len() - i,
    {
        push_pair(out, key, values[i].clone());
        i = i + 1;
    }
}

fn redact_strings(redact: &Vec<Redact>) -> (r: Vec<String>)
    ensures
        texts_view(r@) == redact_texts(redact@),
{
    let mut r: Vec<String> = Vec::new();
    let mut i: usize = 0;
    while i < redact.len()
        invariant
            i <= redact.len(),
            texts_view(r@) == redact_texts(redact@.take(i as int)),
        decreases redact.len() - i,
    {
        let ghost before = r@;
        r.push(owned(redact[i].as_ref()));
        proof {
            assert(texts_view(r@) =~= texts_view(before).push(redact@[i as int].text()));
        }
        i = i + 1;
    }
    r
}

fn replace_string(item: &Replace) -> (r: String)
    ensures
        r@ == replace_text(item@),
{
    match &item.replace {
        Some(with) => glued(item.find.as_str(), ":", with.as_str()),
        None => item.find.clone(),
    }
}

fn replace_strings(replace: &Vec<Replace>) -> (r: Vec<String>)
    ensures
        texts_view(r@) == replace_texts(replaces_view(replace@)),
{
    let mut r: Vec<String> = Vec::new();
    let mut i: usize = 0;
    while i < replace.len()
        invariant
            i <= replace.len(),
            texts_view(r@) == replace_texts(replaces_view(replace@.take(i as int))),
        decreases replace.len() - i,
    {
        let ghost before = r@;
        r.push(replace_string(&replace[i]));
        proof {
            let text = replace_text(replace@[i as int]@);
            assert(texts_view(r@) =~= texts_view(before).push(text));
        }
        i = i + 1;
    }
    r
}

fn keyword_string(item: &Keyword) -> (r: String)
    ensures
        r@ == keyword_text(item@),
{
    match &item.intensifier {
        Some(boost) => glued(item.keyword.as_str(), ":", boost.as_str()),
        None => item.keyword.clone(),
    }
}

fn keyword_strings(keywords: &Vec<Keyword>) -> (r: Vec<String>)
    ensures
        texts_view(r@) == keyword_texts(keywords_view(keywords@)),
{
    let mut r: Vec<String> = Vec::new();
    let mut i: usize = 0;
    while i < keywords.len()
        invariant
            i <= keywords.len(),
            texts_view(r@) == keyword_texts(keywords_view(keywords@.take(i as int))),
        decreases keywords.len() - i,
    {
        let ghost before = r@;
        r.push(keyword_string(&keywords[i]));
        proof {
            let text = keyword_text(keywords@[i as int]@);
            assert(texts_view(r@) =~= texts_view(before).push(text));
        }
        i = i + 1;
    }
    r
}

fn push_copies(out: &mut Vec<(String, String)>, pairs: &Vec<(String, String)>)
    ensures
        pairs_view(final(out)@) == pairs_view(old(out)@) + pairs_view(pairs@),
{
    let mut i: usize = 0;
    while i < pairs.len()
        invariant
            i <= pairs.len(),
            pairs_view(out@) == pairs_view(old(out)@) + pairs_view(pairs@.take(i as int)),
        decreases pairs.len() - i,
    {
        push_pair(out, pairs[i].0.as_str(), pairs[i].1.clone());
        i = i + 1;
    }
}

fn model_start(model: &Option<Model>, multichannel: &Option<Multichannel>) -> (r: Vec<
    (String, String),
>)
    ensures
        pairs_view(r@) == model_pairs(
            *model,
            match *multichannel {
                Some(m) => Some(m@),
                None => None,
            },
        ),
{
    let mut out: Vec<(String, String)> = Vec::new();
    match multichannel {
        Some(Multichannel::Enabled { models: Some(models) }) => push_pair(&mut out, "model", models_to_string(models.as_slice())),
        _ => {
            match model {
                Some(model) => push_pair(&mut out, "model", owned(model.as_ref())),
                None => {},
            }
        },
    }
    out
}

fn push_multichannel(out: &mut Vec<(String, String)>, multichannel: &Option<Multichannel>)
    ensures
        pairs_view(final(out)@) == pairs_view(old(out)@) + multichannel_pairs(
            match *multichannel {
                Some(m) => Some(m@),
                None => None,
            },
        ),
{
    match multichannel {
        Some(Multichannel::Disabled) => push_pair(out, "multichannel", flag_string(false)),
        Some(Multichannel::Enabled { models }) => push_pair(out, "multichannel", flag_string(true)),
        None => {},
    }
}

fn push_alternatives(out: &mut Vec<(String, String)>, alternatives: Option<usize>)
    ensures
        pairs_view(final(out)@) == pairs_view(old(out)@) + alternatives_pairs(alternatives),
{
    match alternatives {
        Some(n) => push_pair(out, "alternatives", decimal_string(n as u64)),
        None => {},
    }
}

fn push_legacy(out: &mut Vec<(String, String)>, legacy: bool)
    ensures
        pairs_view(final(out)@) == pairs_view(old(out)@) + legacy_pairs(legacy),
{
    if legacy {
        push_pair(out, "keyword_boost", owned("legacy"));
    }
}

fn push_utterances(out: &mut Vec<(String, String)>, utterances: &Option<Utterances>)
    ensures
        pairs_view(final(out)@) == pairs_view(old(out)@) + utterances_pairs(
            match *utterances {
                Some(u) => Some(u@),
                None => None,
            },
        ),
{
    match utterances {
        Some(Utterances::Disabled) => push_pair(out, "utterances", flag_string(false)),
        Some(Utterances::Enabled { utt_split }) => {
            push_pair(out, "utterances", flag_string(true));
            match utt_split {
                Some(pause) => push_pair(out, "utt_split", pause.clone()),
                None => {},
            }
        },
        None => {},
    }
}

fn push_language(out: &mut Vec<(String, String)>, language: &Option<Language>)
    ensures
        pairs_view(final(out)@) == pairs_view(old(out)@) + text_pairs(
            "language"@,
            match *language {
                Some(l) => Some(l.text()),
                None => None,
            },
        ),
{
    match language {
        Some(language) => push_text(out, "language", Some(language.as_ref())),
        None => push_text(out, "language", None),
    }
}

fn push_version(out: &mut Vec<(String, String)>, version: &Option<String>)
    ensures
        pairs_view(final(out)@) == pairs_view(old(out)@) + text_pairs(
            "version"@,
            match *version {
                Some(v) => Some(v@),
                None => None,
            },
        ),
{
    match version {
        Some(version) => push_text(out, "version", Some(version.as_str())),
        None => push_text(out, "version", None),
    }
}

/// `serde_urlencoded::ser::Error`, carried through unread.
#[verifier::external_type_specification]
#[verifier::external_body]
pub struct ExUrlencodeError(serde_urlencoded::ser::Error);

/// The text that `serde_urlencoded::to_string` makes of a list of name and value pairs,
/// or `None` where it refuses the list.
pub uninterp spec fn urlencoded_pairs(pairs: Seq<(Seq<char>, Seq<char>)>) -> Option<Seq<char>>;

/// Calls `serde_urlencoded::to_string` on the pairs. What comes back depends on the
/// pairs alone: the text, or the error with which the list was refused.
#[verifier::external_body]
fn to_urlencoded(pairs: &Vec<(String, String)>) -> (r: Result<
    String,
    serde_urlencoded::ser::Error,
>)
    ensures
        match r {
            Ok(text) => urlencoded_pairs(pairs_view(pairs@)) == Some(text@),
            Err(_) => urlencoded_pairs(pairs_view(pairs@)) is None,
        },
{
    serde_urlencoded::to_string(pairs)
}

impl Options {
    /// The query parameters that these options stand for, in their canonical order.
    pub fn query_pairs(&self) -> (r: Vec<(String, String)>)
        ensures
            pairs_view(r@) == query_pairs(self@),
    {
        let mut out = model_start(&self.model, &self.multichannel);
        push_version(&mut out, &self.version);
        push_language(&mut out, &self.language);
        push_flag(&mut out, "punctuate", self.punctuate);
        push_flag(&mut out, "profanity_filter", self.profanity_filter);
        let redact = redact_strings(&self.redact);
        push_each(&mut out, "redact", &redact);
        push_flag(&mut out, "diarize", self.diarize);
        push_flag(&mut out, "ner", self.ner);
        push_multichannel(&mut out, &self.multichannel);
        push_alternatives(&mut out, self.alternatives);
        push_flag(&mut out, "numerals", self.numerals);
        push_each(&mut out, "search", &self.search);
        let replace = replace_strings(&self.replace);
        push_each(&mut out, "replace", &replace);
        let keywords = keyword_strings(&self.keywords);
        push_each(&mut out, "keywords", &keywords);
        push_legacy(&mut out, self.keyword_boost_legacy);
        push_utterances(&mut out, &self.utterances);
        push_each(&mut out, "tag", &self.tags);
        push_flag(&mut out, "detect_language", self.detect_language);
        push_each(&mut out, "custom_topic", &self.custom_topics);
        push_copies(&mut out, &self.query_params);
        out
    }

    /// These options as the query string of a request: their query parameters in
    /// `application/x-www-form-urlencoded` syntax.
    pub fn urlencoded(&self) -> (r: Result<String, serde_urlencoded::ser::Error>)
        ensures
            match r {
                Ok(text) => urlencoded_pairs(query_pairs(self@)) == Some(text@),
                Err(_) => urlencoded_pairs(query_pairs(self@)) is None,
            },
    {
        let pairs = self.query_pairs();
        to_urlencoded(&pairs)
    }
}

} // verus!
