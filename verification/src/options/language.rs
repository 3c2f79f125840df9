//! The languages that can be asked for.

use vstd::prelude::*;

verus! {

/// The language of the audio, as a BCP-47 tag.
#[allow(non_camel_case_types)]
#[derive(Debug, PartialEq, Eq, Clone, Hash)]
#[non_exhaustive]
pub enum Language {
    /// `bg`
    bg,
    /// `ca`
    ca,
    /// `cs`
    cs,
    /// `da`
    da,
    /// `de`
    de,
    /// `de-CH`
    de_CH,
    /// `el`
    el,
    /// `en`
    en,
    /// `en-AU`
    en_AU,
    /// `en-GB`
    en_GB,
    /// `en-IN`
    en_IN,
    /// `en-NZ`
    en_NZ,
    /// `en-US`
    en_US,
    /// `es`
    es,
    /// `es-419`
    es_419,
    /// `es-LATAM`
    es_LATAM,
    /// `et`
    et,
    /// `fi`
    fi,
    /// `fr`
    fr,
    /// `fr-CA`
    fr_CA,
    /// `hi`
    hi,
    /// `hi-Latn`
    hi_Latn,
    /// `hu`
    hu,
    /// `id`
    id,
    /// `it`
    it,
    /// `ja`
    ja,
    /// `ko`
    ko,
    /// `ko-KR`
    ko_KR,
    /// `lv`
    lv,
    /// `lt`
    lt,
    /// `ms`
    ms,
    /// `nl`
    nl,
    /// `nl-BE`
    nl_BE,
    /// `no`
    no,
    /// `pl`
    pl,
    /// `pt`
    pt,
    /// `pt-BR`
    pt_BR,
    /// `ro`
    ro,
    /// `ru`
    ru,
    /// `sk`
    sk,
    /// `sv`
    sv,
    /// `sv-SE`
    sv_SE,
    /// `ta`
    ta,
    /// `taq`
    taq,
    /// `th`
    th,
    /// `th-TH`
    th_TH,
    /// `tr`
    tr,
    /// `uk`
    uk,
    /// `vi`
    vi,
    /// `zh`
    zh,
    /// `zh-CN`
    zh_CN,
    /// `zh-Hans`
    zh_Hans,
    /// `zh-Hant`
    zh_Hant,
    /// `zh-TW`
    zh_TW,
    /// A tag for a language that this crate does not list.
    /// Prefer the listed variants where one fits.
    Other(String),
}

impl Language {
    /// The tag by which the service knows this value.
    pub open spec fn text(self) -> Seq<char> {
        match self {
            Language::bg => "bg"@,
            Language::ca => "ca"@,
            Language::cs => "cs"@,
            Language::da => "da"@,
            Language::de => "de"@,
            Language::de_CH => "de-CH"@,
            Language::el => "el"@,
            Language::en => "en"@,
            Language::en_AU => "en-AU"@,
            Language::en_GB => "en-GB"@,
            Language::en_IN => "en-IN"@,
            Language::en_NZ => "en-NZ"@,
            Language::en_US => "en-US"@,
            Language::es => "es"@,
            Language::es_419 => "es-419"@,
            Language::es_LATAM => "es-LATAM"@,
            Language::et => "et"@,
            Language::fi => "fi"@,
            Language::fr => "fr"@,
            Language::fr_CA => "fr-CA"@,
            Language::hi => "hi"@,
            Language::hi_Latn => "hi-Latn"@,
            Language::hu => "hu"@,
            Language::id => "id"@,
            Language::it => "it"@,
            Language::ja => "ja"@,
            Language::ko => "ko"@,
            Language::ko_KR => "ko-KR"@,
            Language::lv => "lv"@,
            Language::lt => "lt"@,
            Language::ms => "ms"@,
            Language::nl => "nl"@,
            Language::nl_BE => "nl-BE"@,
            Language::no => "no"@,
            Language::pl => "pl"@,
            Language::pt => "pt"@,
            Language::pt_BR => "pt-BR"@,
            Language::ro => "ro"@,
            Language::ru => "ru"@,
            Language::sk => "sk"@,
            Language::sv => "sv"@,
            Language::sv_SE => "sv-SE"@,
            Language::ta => "ta"@,
            Language::taq => "taq"@,
            Language::th => "th"@,
            Language::th_TH => "th-TH"@,
            Language::tr => "tr"@,
            Language::uk => "uk"@,
            Language::vi => "vi"@,
            Language::zh => "zh"@,
            Language::zh_CN => "zh-CN"@,
            Language::zh_Hans => "zh-Hans"@,
            Language::zh_Hant => "zh-Hant"@,
            Language::zh_TW => "zh-TW"@,
            Language::Other(tag) => tag@,
        }
    }

    /// The tag by which the service knows this value.
    pub fn as_ref(&self) -> (r: &str)
        ensures
            r@ == self.text(),
    {
        match self {
            Language::bg => "bg",
            Language::ca => "ca",
            Language::cs => "cs",
            Language::da => "da",
            Language::de => "de",
            Language::de_CH => "de-CH",
            Language::el => "el",
            Language::en => "en",
            Language::en_AU => "en-AU",
            Language::en_GB => "en-GB",
            Language::en_IN => "en-IN",
            Language::en_NZ => "en-NZ",
            Language::en_US => "en-US",
            Language::es => "es",
            Language::es_419 => "es-419",
            Language::es_LATAM => "es-LATAM",
            Language::et => "et",
            Language::fi => "fi",
            Language::fr => "fr",
            Language::fr_CA => "fr-CA",
            Language::hi => "hi",
            Language::hi_Latn => "hi-Latn",
            Language::hu => "hu",
            Language::id => "id",
            Language::it => "it",
            Language::ja => "ja",
            Language::ko => "ko",
            Language::ko_KR => "ko-KR",
            Language::lv => "lv",
            Language::lt => "lt",
            Language::ms => "ms",
            Language::nl => "nl",
            Language::nl_BE => "nl-BE",
            Language::no => "no",
            Language::pl => "pl",
            Language::pt => "pt",
            Language::pt_BR => "pt-BR",
            Language::ro => "ro",
            Language::ru => "ru",
            Language::sk => "sk",
            Language::sv => "sv",
            Language::sv_SE => "sv-SE",
            Language::ta => "ta",
            Language::taq => "taq",
            Language::th => "th",
            Language::th_TH => "th-TH",
            Language::tr => "tr",
            Language::uk => "uk",
            Language::vi => "vi",
            Language::zh => "zh",
            Language::zh_CN => "zh-CN",
            Language::zh_Hans => "zh-Hans",
            Language::zh_Hant => "zh-Hant",
            Language::zh_TW => "zh-TW",
            Language::Other(tag) => tag.as_str(),
        }
    }
}

} // verus!
