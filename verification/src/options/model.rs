//! The models that can be asked for.

use vstd::prelude::*;
use vstd::string::StringExecFns;
use crate::text::joined;

verus! {

/// A speech recognition model.
///
/// Not all models are supported for all languages.
#[derive(Debug, PartialEq, Eq, Clone, Hash)]
#[non_exhaustive]
pub enum Model {
    /// Recommended for readability and Deepgram's lowest word error rates.
    /// Recommended for most use cases.
    Nova2,
    /// Recommended for readability and low word error rates.
    Nova,
    /// Recommended for lower word error rates than `Base`, high accuracy
    /// timestamps, and use cases that require keyword boosting.
    Enhanced,
    /// Recommended for large transcription volumes and high accuracy
    /// timestamps.
    Base,
    /// `nova-2-meeting`
    Nova2Meeting,
    /// `nova-2-phonecall`
    Nova2Phonecall,
    /// `nova-2-finance`
    Nova2Finance,
    /// `nova-2-conversationalai`
    Nova2Conversationalai,
    /// `nova-2-voicemail`
    Nova2Voicemail,
    /// `nova-2-video`
    Nova2Video,
    /// `nova-2-medical`
    Nova2Medical,
    /// `nova-2-drivethru`
    Nova2Drivethru,
    /// `nova-2-automotive`
    Nova2Automotive,
    /// `nova-phonecall`
    NovaPhonecall,
    /// `nova-medical`
    NovaMedical,
    /// `enhanced-meeting`
    EnhancedMeeting,
    /// `enhanced-phonecall`
    EnhancedPhonecall,
    /// `enhanced-finance`
    EnhancedFinance,
    /// `base-meeting`
    BaseMeeting,
    /// `base-phonecall`
    BasePhonecall,
    /// `base-voicemail`
    BaseVoicemail,
    /// `base-finance`
    BaseFinance,
    /// `base-conversationalai`
    BaseConversationalai,
    /// `base-video`
    BaseVideo,
    /// Superseded by the general-purpose models such as `Nova2`.
    General,
    /// Superseded by the qualified models such as `Nova2Meeting`.
    Meeting,
    /// Superseded by the qualified models such as `Nova2Phonecall`.
    Phonecall,
    /// Superseded by the qualified models such as `Nova2Voicemail`.
    Voicemail,
    /// Superseded by the qualified models such as `Nova2Finance`.
    Finance,
    /// Superseded by the qualified models such as `Nova2Conversationalai`.
    Conversationalai,
    /// Superseded by the qualified models such as `Nova2Video`.
    Video,
    /// The identifier of a custom model.
    CustomId(String),
}

impl Model {
    /// The tag by which the service knows this value.
    pub open spec fn text(self) -> Seq<char> {
        match self {
            Model::Nova2 => "nova-2"@,
            Model::Nova => "nova"@,
            Model::Enhanced => "enhanced"@,
            Model::Base => "base"@,
            Model::Nova2Meeting => "nova-2-meeting"@,
            Model::Nova2Phonecall => "nova-2-phonecall"@,
            Model::Nova2Finance => "nova-2-finance"@,
            Model::Nova2Conversationalai => "nova-2-conversationalai"@,
            Model::Nova2Voicemail => "nova-2-voicemail"@,
            Model::Nova2Video => "nova-2-video"@,
            Model::Nova2Medical => "nova-2-medical"@,
            Model::Nova2Drivethru => "nova-2-drivethru"@,
            Model::Nova2Automotive => "nova-2-automotive"@,
            Model::NovaPhonecall => "nova-phonecall"@,
            Model::NovaMedical => "nova-medical"@,
            Model::EnhancedMeeting => "enhanced-meeting"@,
            Model::EnhancedPhonecall => "enhanced-phonecall"@,
            Model::EnhancedFinance => "enhanced-finance"@,
            Model::BaseMeeting => "base-meeting"@,
            Model::BasePhonecall => "base-phonecall"@,
            Model::BaseVoicemail => "base-voicemail"@,
            Model::BaseFinance => "base-finance"@,
            Model::BaseConversationalai => "base-conversationalai"@,
            Model::BaseVideo => "base-video"@,
            Model::General => "general"@,
            Model::Meeting => "meeting"@,
            Model::Phonecall => "phonecall"@,
            Model::Voicemail => "voicemail"@,
            Model::Finance => "finance"@,
            Model::Conversationalai => "conversationalai"@,
            Model::Video => "video"@,
            Model::CustomId(tag) => tag@,
        }
    }

    /// The tag by which the service knows this value.
    pub fn as_ref(&self) -> (r: &str)
        ensures
            r@ == self.text(),
    {
        match self {
            Model::Nova2 => "nova-2",
            Model::Nova => "nova",
            Model::Enhanced => "enhanced",
            Model::Base => "base",
            Model::Nova2Meeting => "nova-2-meeting",
            Model::Nova2Phonecall => "nova-2-phonecall",
            Model::Nova2Finance => "nova-2-finance",
            Model::Nova2Conversationalai => "nova-2-conversationalai",
            Model::Nova2Voicemail => "nova-2-voicemail",
            Model::Nova2Video => "nova-2-video",
            Model::Nova2Medical => "nova-2-medical",
            Model::Nova2Drivethru => "nova-2-drivethru",
            Model::Nova2Automotive => "nova-2-automotive",
            Model::NovaPhonecall => "nova-phonecall",
            Model::NovaMedical => "nova-medical",
            Model::EnhancedMeeting => "enhanced-meeting",
            Model::EnhancedPhonecall => "enhanced-phonecall",
            Model::EnhancedFinance => "enhanced-finance",
            Model::BaseMeeting => "base-meeting",
            Model::BasePhonecall => "base-phonecall",
            Model::BaseVoicemail => "base-voicemail",
            Model::BaseFinance => "base-finance",
            Model::BaseConversationalai => "base-conversationalai",
            Model::BaseVideo => "base-video",
            Model::General => "general",
            Model::Meeting => "meeting",
            Model::Phonecall => "phonecall",
            Model::Voicemail => "voicemail",
            Model::Finance => "finance",
            Model::Conversationalai => "conversationalai",
            Model::Video => "video",
            Model::CustomId(tag) => tag.as_str(),
        }
    }
}

/// The tags of `models`, in order.
pub open spec fn model_texts(models: Seq<Model>) -> Seq<Seq<char>> {
    models.map_values(|m: Model| m.text())
}

/// The tags of `models`, in order, with a colon between each two neighbours.
pub open spec fn models_text(models: Seq<Model>) -> Seq<char> {
    joined(model_texts(models), ":"@)
}

/// Writes several models as one value: their tags in order, separated by colons.
pub fn models_to_string(models: &[Model]) -> (r: String)
    ensures
        r@ == models_text(models@),
{
    let mut out = String::new();
    let mut i: usize = 0;
    while i < models.len()
        invariant
            i <= models.len(),
            out@ == models_text(models@.take(i as int)),
        decreases models.len() - i,
    {
        proof {
            let before = models@.take(i as int);
            let after = models@.take(i + 1);
            assert(model_texts(after).drop_last() =~= model_texts(before));
        }
        if i > 0 {
            out.append(":");
        }
        out.append(models[i].as_ref());
        i = i + 1;
    }
    assert(models@.take(i as int) =~= models@);
    out
}

} // verus!
