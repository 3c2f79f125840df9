use deepgram::options::language::Language;
use deepgram::options::model::Model;
use deepgram::options::redact::Redact;
use deepgram::options::{Keyword, Options, Replace};

fn check_serialization(options: &Options, expected: &str) {
    let actual = options.urlencoded().unwrap();
    assert_eq!(actual, expected);
}

fn generate_alphabet_test(key: &str, length: usize) -> (Vec<&'static str>, String) {
    let letters = [
        "A", "B", "C", "D", "E", "F", "G", "H", "I", "J", "K", "L", "M", "N", "O", "P", "Q",
        "R", "S", "T", "U", "V", "W", "X", "Y", "Z",
    ];

    let limited_letters = Vec::from(&letters[..length.min(letters.len())]);

    let expected = limited_letters
        .iter()
        .map(|letter| format!("{}={}", key, letter))
        .collect::<Vec<String>>()
        .join("&");

    (limited_letters, expected)
}

#[test]
fn all_options() {
    let options = Options::builder()
        .model(Model::Base)
        .version("1.2.3")
        .language(Language::en_US)
        .punctuate(true)
        .profanity_filter(true)
        .redact(vec![Redact::Pci, Redact::Ssn])
        .diarize(true)
        .ner(true)
        .multichannel_with_models(vec![
            Model::EnhancedFinance,
            Model::CustomId(String::from("extra_crispy")),
            Model::Nova2Conversationalai,
        ])
        .alternatives(4)
        .numerals(true)
        .search(vec!["Rust", "Deepgram"])
        .replace(vec![Replace {
            find: String::from("Aaron"),
            replace: Some(String::from("Erin")),
        }])
        .keywords(vec!["Ferris"])
        .keywords_with_intensifiers(vec![Keyword {
            keyword: String::from("Cargo"),
            intensifier: Some((-1.5f64).to_string()),
        }])
        .utterances_with_utt_split(&0.9f64.to_string())
        .tag(vec!["Tag 1"])
        .build();

    check_serialization(&options, "model=enhanced-finance%3Aextra_crispy%3Anova-2-conversationalai&version=1.2.3&language=en-US&punctuate=true&profanity_filter=true&redact=pci&redact=ssn&diarize=true&ner=true&multichannel=true&alternatives=4&numerals=true&search=Rust&search=Deepgram&replace=Aaron%3AErin&keywords=Ferris&keywords=Cargo%3A-1.5&utterances=true&utt_split=0.9&tag=Tag+1");
}

#[test]
fn model() {
    check_serialization(&Options::builder().model(Model::Base).build(), "model=base");

    check_serialization(
        &Options::builder()
            .model(Model::CustomId(String::from("extra_crispy")))
            .build(),
        "model=extra_crispy",
    );
}

#[test]
fn version() {
    check_serialization(
        &Options::builder().version("1.2.3").build(),
        "version=1.2.3",
    );
}

#[test]
fn language() {
    check_serialization(
        &Options::builder().language(Language::en_US).build(),
        "language=en-US",
    );

    check_serialization(
        &Options::builder().language(Language::ja).build(),
        "language=ja",
    );
}

#[test]
fn punctuate() {
    check_serialization(
        &Options::builder().punctuate(true).build(),
        "punctuate=true",
    );

    check_serialization(
        &Options::builder().punctuate(false).build(),
        "punctuate=false",
    );
}

#[test]
fn profanity_filter() {
    check_serialization(
        &Options::builder().profanity_filter(true).build(),
        "profanity_filter=true",
    );

    check_serialization(
        &Options::builder().profanity_filter(false).build(),
        "profanity_filter=false",
    );
}

#[test]
fn redact() {
    check_serialization(&Options::builder().redact(vec![]).build(), "");

    check_serialization(
        &Options::builder().redact(vec![Redact::Numbers]).build(),
        "redact=numbers",
    );

    check_serialization(
        &Options::builder()
            .redact(vec![Redact::Ssn, Redact::Pci])
            .build(),
        "redact=ssn&redact=pci",
    );

    check_serialization(
        &Options::builder()
            .redact(vec![
                Redact::Numbers,
                Redact::Ssn,
                Redact::Pci,
                Redact::Ssn,
                Redact::Numbers,
                Redact::Pci,
            ])
            .build(),
        "redact=numbers&redact=ssn&redact=pci&redact=ssn&redact=numbers&redact=pci",
    );
}

#[test]
fn diarize() {
    check_serialization(&Options::builder().diarize(true).build(), "diarize=true");

    check_serialization(&Options::builder().diarize(false).build(), "diarize=false");
}

#[test]
fn ner() {
    check_serialization(&Options::builder().ner(true).build(), "ner=true");

    check_serialization(&Options::builder().ner(false).build(), "ner=false");
}

#[test]
fn multichannel() {
    check_serialization(
        &Options::builder().multichannel(true).build(),
        "multichannel=true",
    );

    check_serialization(
        &Options::builder().multichannel(false).build(),
        "multichannel=false",
    );

    check_serialization(
        &Options::builder()
            .multichannel_with_models(vec![
                Model::EnhancedFinance,
                Model::CustomId(String::from("extra_crispy")),
                Model::Nova2Conversationalai,
            ])
            .build(),
        "model=enhanced-finance%3Aextra_crispy%3Anova-2-conversationalai&multichannel=true",
    );
}

#[test]
fn alternatives() {
    check_serialization(
        &Options::builder().alternatives(4).build(),
        "alternatives=4",
    );
}

#[test]
fn numerals() {
    check_serialization(&Options::builder().numerals(true).build(), "numerals=true");

    check_serialization(
        &Options::builder().numerals(false).build(),
        "numerals=false",
    );
}

#[test]
fn search() {
    check_serialization(&Options::builder().search(vec![]).build(), "");

    check_serialization(&Options::builder().search(vec!["Rust"]).build(), "search=Rust");

    check_serialization(
        &Options::builder().search(vec!["Rust", "Deepgram"]).build(),
        "search=Rust&search=Deepgram",
    );

    {
        let (input, expected) = generate_alphabet_test("search", 25);

        check_serialization(&Options::builder().search(input).build(), &expected);
    }
}

#[test]
fn replace() {
    check_serialization(&Options::builder().replace(vec![]).build(), "");

    check_serialization(
        &Options::builder()
            .replace(vec![Replace {
                find: String::from("Aaron"),
                replace: Some(String::from("Erin")),
            }])
            .build(),
        "replace=Aaron%3AErin",
    );

    check_serialization(
        &Options::builder()
            .replace(vec![Replace {
                find: String::from("Voldemort"),
                replace: None,
            }])
            .build(),
        "replace=Voldemort",
    );

    check_serialization(
        &Options::builder()
            .replace(vec![
                Replace {
                    find: String::from("Aaron"),
                    replace: Some(String::from("Erin")),
                },
                Replace {
                    find: String::from("Voldemort"),
                    replace: None,
                },
            ])
            .build(),
        "replace=Aaron%3AErin&replace=Voldemort",
    );

    check_serialization(
        &Options::builder()
            .replace(vec![Replace {
                find: String::from("this too"),
                replace: Some(String::from("that too")),
            }])
            .build(),
        "replace=this+too%3Athat+too",
    );
}

#[test]
fn keywords() {
    check_serialization(&Options::builder().keywords(vec![]).build(), "");

    check_serialization(
        &Options::builder().keywords(vec!["Ferris"]).build(),
        "keywords=Ferris",
    );

    check_serialization(
        &Options::builder().keywords(vec!["Ferris", "Cargo"]).build(),
        "keywords=Ferris&keywords=Cargo",
    );

    {
        let (input, expected) = generate_alphabet_test("keywords", 200);

        check_serialization(&Options::builder().keywords(input).build(), &expected);
    }

    {
        let keywords = vec![Keyword {
            keyword: String::from("Ferris"),
            intensifier: Some(0.5f64.to_string()),
        }];

        check_serialization(
            &Options::builder()
                .keywords_with_intensifiers(keywords)
                .build(),
            "keywords=Ferris%3A0.5",
        );
    }

    {
        let keywords = vec![
            Keyword {
                keyword: String::from("Ferris"),
                intensifier: Some(0.5f64.to_string()),
            },
            Keyword {
                keyword: String::from("Cargo"),
                intensifier: Some((-1.5f64).to_string()),
            },
        ];

        check_serialization(
            &Options::builder()
                .keywords_with_intensifiers(keywords)
                .build(),
            "keywords=Ferris%3A0.5&keywords=Cargo%3A-1.5",
        );
    }

    check_serialization(
        &Options::builder()
            .keywords(vec!["Ferris"])
            .keyword_boost_legacy()
            .build(),
        "keywords=Ferris&keyword_boost=legacy",
    );
}

#[test]
fn utterances() {
    check_serialization(
        &Options::builder().utterances(false).build(),
        "utterances=false",
    );

    check_serialization(
        &Options::builder().utterances(true).build(),
        "utterances=true",
    );

    check_serialization(
        &Options::builder()
            .utterances_with_utt_split(&0.9f64.to_string())
            .build(),
        "utterances=true&utt_split=0.9",
    );
}

#[test]
fn tag() {
    check_serialization(&Options::builder().tag(vec!["Tag 1"]).build(), "tag=Tag+1");

    check_serialization(
        &Options::builder().tag(vec!["Tag 1", "Tag 2"]).build(),
        "tag=Tag+1&tag=Tag+2",
    );
}

#[test]
fn detect_language() {
    check_serialization(
        &Options::builder().detect_language(false).build(),
        "detect_language=false",
    );

    check_serialization(
        &Options::builder().detect_language(true).build(),
        "detect_language=true",
    );
}
