//! How the audio samples of a stream are encoded.

use vstd::prelude::*;

verus! {

/// The encoding of the audio that is sent.
#[derive(Debug, PartialEq, Eq, Clone, Hash)]
#[non_exhaustive]
pub enum Encoding {
    /// 16-bit, little endian, signed PCM.
    Linear16,
    /// FLAC.
    Flac,
    /// Mu-law.
    Mulaw,
    /// Adaptive multi-rate, narrowband.
    AmrNb,
    /// Adaptive multi-rate, wideband.
    AmrWb,
    /// Opus.
    Opus,
    /// Speex.
    Speex,
    /// An encoding that this crate does not list, by its tag.
    CustomEncoding(String),
}

impl Encoding {
    /// The tag by which the service knows this encoding.
    pub open spec fn text(self) -> Seq<char> {
        match self {
            Encoding::Linear16 => "linear16"@,
            Encoding::Flac => "flac"@,
            Encoding::Mulaw => "mulaw"@,
            Encoding::AmrNb => "amr-nb"@,
            Encoding::AmrWb => "amr-wb"@,
            Encoding::Opus => "opus"@,
            Encoding::Speex => "speex"@,
            Encoding::CustomEncoding(tag) => tag@,
        }
    }

    /// The tag by which the service knows this encoding.
    pub fn as_str(&self) -> (r: &str)
        ensures
            r@ == self.text(),
    {
        match self {
            Encoding::Linear16 => "linear16",
            Encoding::Flac => "flac",
            Encoding::Mulaw => "mulaw",
            Encoding::AmrNb => "amr-nb",
            Encoding::AmrWb => "amr-wb",
            Encoding::Opus => "opus",
            Encoding::Speex => "speex",
            Encoding::CustomEncoding(tag) => tag.as_str(),
        }
    }
}

/// When the service takes a silence for the end of speech.
#[derive(Debug, PartialEq, Eq, Clone, Copy, Hash)]
#[non_exhaustive]
pub enum Endpointing {
    /// After the service's own length of silence.
    Enabled,
    /// Never.
    Disabled,
    /// After this many milliseconds of silence.
    CustomDurationMs(u32),
}

impl Endpointing {
    /// How this policy is written in a request: `true`, `false`, or the number of
    /// milliseconds in decimal.
    pub open spec fn text(self) -> Seq<char> {
        match self {
            Endpointing::Enabled => crate::text::flag_text(true),
            Endpointing::Disabled => crate::text::flag_text(false),
            Endpointing::CustomDurationMs(ms) => crate::text::decimal(ms as nat),
        }
    }

    /// How this policy is written in a request.
    pub fn to_text(&self) -> (r: String)
        ensures
            r@ == self.text(),
    {
        match self {
            Endpointing::Enabled => crate::text::flag_string(true),
            Endpointing::Disabled => crate::text::flag_string(false),
            Endpointing::CustomDurationMs(ms) => crate::text::decimal_string(*ms as u64),
        }
    }
}

} // verus!
