use deepgram::options::model::{models_to_string, Model};

#[test]
fn empty() {
    assert_eq!(models_to_string(&[]), "");
}

#[test]
fn one() {
    assert_eq!(models_to_string(&[Model::Base]), "base");
}

#[test]
fn many() {
    assert_eq!(
        models_to_string(&[
            Model::BasePhonecall,
            Model::BaseMeeting,
            Model::BaseVoicemail
        ]),
        "base-phonecall:base-meeting:base-voicemail"
    );
}

#[test]
fn custom() {
    assert_eq!(
        models_to_string(&[
            Model::EnhancedFinance,
            Model::CustomId(String::from("extra_crispy")),
            Model::Nova2Conversationalai,
        ]),
        "enhanced-finance:extra_crispy:nova-2-conversationalai"
    );
}
