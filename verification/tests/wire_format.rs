use kiro_model::custom::Customization;
use kiro_model::error::ParseError;
use kiro_model::fields::{find, Lookup};
use kiro_model::intent::UserIntent;
use kiro_model::keys::FieldKey;
use kiro_model::language::ProgrammingLanguage;
use kiro_model::link::SupplementaryWebLink;
use kiro_model::prompt::FollowupPrompt;
use kiro_model::query::CodeQuery;
use kiro_model::reference::{MostRelevantMissedAlternative, Reference};
use kiro_model::span::ContentSpan;
use kiro_model::wire::{same_text, Number, ValueKind, WireValue};

fn to_json(value: &WireValue) -> serde_json::Value {
    match value {
        WireValue::Null => serde_json::Value::Null,
        WireValue::Bool(b) => serde_json::Value::Bool(*b),
        WireValue::Number(Number::Integer(n)) => serde_json::Value::Number((*n).into()),
        WireValue::Number(Number::Real(bits)) => {
            serde_json::Value::Number(serde_json::Number::from_f64(f64::from_bits(*bits)).unwrap())
        }
        WireValue::Text(s) => serde_json::Value::String(s.clone()),
        WireValue::List(items) => serde_json::Value::Array(items.iter().map(to_json).collect()),
        WireValue::Object(entries) => {
            let mut map = serde_json::Map::new();
            for (key, inner) in entries {
                assert!(map.insert(key.clone(), to_json(inner)).is_none());
            }
            serde_json::Value::Object(map)
        }
    }
}

fn from_json(value: &serde_json::Value) -> WireValue {
    match value {
        serde_json::Value::Null => WireValue::Null,
        serde_json::Value::Bool(b) => WireValue::Bool(*b),
        serde_json::Value::Number(n) => match n.as_i64() {
            Some(whole) => WireValue::Number(Number::Integer(whole)),
            None => WireValue::Number(Number::Real(n.as_f64().unwrap().to_bits())),
        },
        serde_json::Value::String(s) => WireValue::Text(s.clone()),
        serde_json::Value::Array(items) => WireValue::List(items.iter().map(from_json).collect()),
        serde_json::Value::Object(map) => {
            WireValue::Object(map.iter().map(|(k, v)| (k.clone(), from_json(v))).collect())
        }
    }
}

fn text(value: &WireValue) -> String {
    serde_json::to_string(&to_json(value)).unwrap()
}

fn parse(json: &str) -> WireValue {
    from_json(&serde_json::from_str::<serde_json::Value>(json).unwrap())
}

fn keys(value: &WireValue) -> Vec<String> {
    match value {
        WireValue::Object(entries) => entries.iter().map(|(k, _)| k.clone()).collect(),
        _ => panic!("no object"),
    }
}

fn binary64(x: f64) -> Number {
    Number::Real(x.to_bits())
}

fn entry(key: &str, value: WireValue) -> (String, WireValue) {
    (key.to_string(), value)
}

#[test]
fn test_supplementary_web_link_serialize() {
    let link = SupplementaryWebLink::new("https://example.com")
        .with_title("Example")
        .with_score(binary64(0.95));

    let json = text(&link.to_wire());
    assert!(json.contains("\"url\":\"https://example.com\""));
    assert!(json.contains("\"title\":\"Example\""));
    assert!(json.contains("\"score\":0.95"));
}

#[test]
fn test_supplementary_web_link_deserialize() {
    let json = r#"{"url":"https://test.com","title":"Test","snippet":"A test link","score":0.8}"#;
    let link: SupplementaryWebLink = SupplementaryWebLink::from_wire(&parse(json)).unwrap();
    assert_eq!(link.url, "https://test.com");
    assert_eq!(link.title, Some("Test".to_string()));
    assert_eq!(link.snippet, Some("A test link".to_string()));
    assert_eq!(link.score, Some(binary64(0.8)));
}

#[test]
fn test_followup_prompt_serialize() {
    let prompt = FollowupPrompt::new("How can I improve this code?")
        .with_user_intent(UserIntent::from_name("ImproveCode").unwrap());

    let json = text(&prompt.to_wire());
    assert!(json.contains("\"content\":\"How can I improve this code?\""));
    assert!(json.contains("\"userIntent\":\"IMPROVE_CODE\""));
}

#[test]
fn test_programming_language() {
    let lang = ProgrammingLanguage::new("rust");
    let json = text(&lang.to_wire());
    assert_eq!(json, r#"{"languageName":"rust"}"#);
}

#[test]
fn test_code_query() {
    let query = CodeQuery::new("query-123")
        .with_programming_language(ProgrammingLanguage::new("python"))
        .with_user_input_message_id("msg-456");

    let json = text(&query.to_wire());
    assert!(json.contains("\"codeQueryId\":\"query-123\""));
    assert!(json.contains("\"languageName\":\"python\""));
}

#[test]
fn link_without_snippet_writes_no_snippet_key() {
    let link = SupplementaryWebLink::new("https://example.com")
        .with_title("Example")
        .with_score(binary64(0.95));
    let wire = link.to_wire();
    assert_eq!(keys(&wire), vec!["url", "title", "score"]);
    assert!(!text(&wire).contains("snippet"));
    assert!(!text(&wire).contains("null"));
}

#[test]
fn link_entries_hold_what_the_link_holds() {
    let link = SupplementaryWebLink::new("u").with_title("t").with_snippet("s").with_score(binary64(1.5));
    assert_eq!(
        link.to_wire(),
        WireValue::Object(vec![
            entry("url", WireValue::Text("u".to_string())),
            entry("title", WireValue::Text("t".to_string())),
            entry("snippet", WireValue::Text("s".to_string())),
            entry("score", WireValue::Number(binary64(1.5))),
        ])
    );
    assert_eq!(
        SupplementaryWebLink::new("u").to_wire(),
        WireValue::Object(vec![entry("url", WireValue::Text("u".to_string()))])
    );
}

#[test]
fn link_round_trips_with_every_choice_of_fields() {
    for with_title in [false, true] {
        for with_snippet in [false, true] {
            for with_score in [false, true] {
                let mut link = SupplementaryWebLink::new("https://example.com/a?b=c");
                if with_title {
                    link = link.with_title("A \"quoted\" title");
                }
                if with_snippet {
                    link = link.with_snippet("");
                }
                if with_score {
                    link = link.with_score(binary64(-0.1));
                }
                let back = SupplementaryWebLink::from_wire(&link.to_wire()).unwrap();
                assert_eq!(back.url, link.url);
                assert_eq!(back.title, link.title);
                assert_eq!(back.snippet, link.snippet);
                assert_eq!(back.score, link.score);
                let again = SupplementaryWebLink::from_wire(&parse(&text(&link.to_wire()))).unwrap();
                assert_eq!(again.url, link.url);
                assert_eq!(again.title, link.title);
                assert_eq!(again.snippet, link.snippet);
                assert_eq!(again.score, link.score);
            }
        }
    }
}

#[test]
fn score_keeps_every_bit() {
    for x in [0.1, 0.95, 1.0 / 3.0, f64::MIN_POSITIVE, f64::MAX, -0.0, 1e-320] {
        let link = SupplementaryWebLink::new("u").with_score(binary64(x));
        let back = SupplementaryWebLink::from_wire(&link.to_wire()).unwrap();
        assert_eq!(back.score, Some(Number::Real(x.to_bits())));
    }
}

#[test]
fn score_may_be_a_whole_number() {
    let link = SupplementaryWebLink::from_wire(&parse(r#"{"url":"u","score":1}"#)).unwrap();
    assert_eq!(link.score, Some(Number::Integer(1)));
    assert_eq!(text(&link.to_wire()), r#"{"score":1,"url":"u"}"#);
}

#[test]
fn link_without_url_is_refused_as_missing_url() {
    assert_eq!(
        SupplementaryWebLink::from_wire(&parse("{}")).unwrap_err(),
        ParseError::MissingField { field: FieldKey::Url }
    );
    assert_eq!(
        SupplementaryWebLink::from_wire(&parse(r#"{"title":"t","score":0.5}"#)).unwrap_err(),
        ParseError::MissingField { field: FieldKey::Url }
    );
}

#[test]
fn link_with_null_url_is_refused_as_mismatch() {
    assert_eq!(
        SupplementaryWebLink::from_wire(&parse(r#"{"url":null}"#)).unwrap_err(),
        ParseError::TypeMismatch {
            field: FieldKey::Url,
            expected: ValueKind::Text,
            found: ValueKind::Null
        }
    );
}

#[test]
fn link_with_text_score_is_refused_as_mismatch() {
    assert_eq!(
        SupplementaryWebLink::from_wire(&parse(r#"{"url":"u","score":"high"}"#)).unwrap_err(),
        ParseError::TypeMismatch {
            field: FieldKey::Score,
            expected: ValueKind::Real,
            found: ValueKind::Text
        }
    );
    assert_eq!(
        SupplementaryWebLink::from_wire(&parse(r#"{"url":"u","score":[0.5]}"#)).unwrap_err(),
        ParseError::TypeMismatch {
            field: FieldKey::Score,
            expected: ValueKind::Real,
            found: ValueKind::List
        }
    );
}

#[test]
fn link_with_wrong_title_is_refused_as_mismatch() {
    for (json, found) in [
        (r#"{"url":"u","title":7}"#, ValueKind::Integer),
        (r#"{"url":"u","title":7.5}"#, ValueKind::Real),
        (r#"{"url":"u","title":true}"#, ValueKind::Bool),
        (r#"{"url":"u","title":{}}"#, ValueKind::Object),
    ] {
        assert_eq!(
            SupplementaryWebLink::from_wire(&parse(json)).unwrap_err(),
            ParseError::TypeMismatch { field: FieldKey::Title, expected: ValueKind::Text, found }
        );
    }
}

#[test]
fn what_is_no_object_is_refused_with_its_kind() {
    for (json, found) in [
        ("null", ValueKind::Null),
        ("true", ValueKind::Bool),
        ("3", ValueKind::Integer),
        ("3.5", ValueKind::Real),
        ("\"url\"", ValueKind::Text),
        ("[\"u\"]", ValueKind::List),
    ] {
        let wire = parse(json);
        assert_eq!(wire.kind(), found);
        let expected = ParseError::NotAnObject { found };
        assert_eq!(SupplementaryWebLink::from_wire(&wire).unwrap_err(), expected);
        assert_eq!(ContentSpan::from_wire(&wire).unwrap_err(), expected);
        assert_eq!(Reference::from_wire(&wire).unwrap_err(), expected);
        assert_eq!(MostRelevantMissedAlternative::from_wire(&wire).unwrap_err(), expected);
        assert_eq!(FollowupPrompt::from_wire(&wire).unwrap_err(), expected);
        assert_eq!(ProgrammingLanguage::from_wire(&wire).unwrap_err(), expected);
        assert_eq!(Customization::from_wire(&wire).unwrap_err(), expected);
        assert_eq!(CodeQuery::from_wire(&wire).unwrap_err(), expected);
    }
}

#[test]
fn null_under_an_optional_key_reads_as_absent() {
    let link =
        SupplementaryWebLink::from_wire(&parse(r#"{"url":"u","title":null,"score":null}"#)).unwrap();
    assert_eq!(link.title, None);
    assert_eq!(link.score, None);
    let reference = Reference::from_wire(&parse(
        r#"{"recommendationContentSpan":null,"mostRelevantMissedAlternative":null}"#,
    ))
    .unwrap();
    assert_eq!(reference.recommendation_content_span, None);
    assert!(reference.most_relevant_missed_alternative.is_none());
}

#[test]
fn keys_that_are_not_fields_are_passed_over() {
    let link = SupplementaryWebLink::from_wire(&parse(
        r#"{"extra":[1,{"url":"no"}],"url":"u","Title":"no","snippet_":"no"}"#,
    ))
    .unwrap();
    assert_eq!(link.url, "u");
    assert_eq!(link.title, None);
    assert_eq!(link.snippet, None);
}

#[test]
fn a_key_given_twice_is_refused() {
    let twice = WireValue::Object(vec![
        entry("url", WireValue::Text("a".to_string())),
        entry("url", WireValue::Text("b".to_string())),
    ]);
    assert_eq!(
        SupplementaryWebLink::from_wire(&twice).unwrap_err(),
        ParseError::DuplicateField { field: FieldKey::Url }
    );
    let twice = WireValue::Object(vec![
        entry("url", WireValue::Text("a".to_string())),
        entry("title", WireValue::Null),
        entry("title", WireValue::Text("t".to_string())),
    ]);
    assert_eq!(
        SupplementaryWebLink::from_wire(&twice).unwrap_err(),
        ParseError::DuplicateField { field: FieldKey::Title }
    );
    let unknown_twice = WireValue::Object(vec![
        entry("x", WireValue::Null),
        entry("url", WireValue::Text("a".to_string())),
        entry("x", WireValue::Null),
    ]);
    assert_eq!(SupplementaryWebLink::from_wire(&unknown_twice).unwrap().url, "a");
}

#[test]
fn the_first_field_at_fault_is_the_one_reported() {
    assert_eq!(
        SupplementaryWebLink::from_wire(&parse(r#"{"score":"x","snippet":1,"title":2}"#))
            .unwrap_err(),
        ParseError::MissingField { field: FieldKey::Url }
    );
    assert_eq!(
        SupplementaryWebLink::from_wire(&parse(r#"{"url":"u","score":"x","snippet":1,"title":2}"#))
            .unwrap_err(),
        ParseError::TypeMismatch {
            field: FieldKey::Title,
            expected: ValueKind::Text,
            found: ValueKind::Integer
        }
    );
}

#[test]
fn find_counts_the_entries_under_a_key() {
    let entries = vec![
        entry("a", WireValue::Bool(true)),
        entry("b", WireValue::Null),
        entry("a", WireValue::Bool(false)),
        entry("", WireValue::Text("empty key".to_string())),
    ];
    assert!(matches!(find(&entries, "a"), Lookup::Many));
    assert!(matches!(find(&entries, "b"), Lookup::One(WireValue::Null)));
    assert!(matches!(find(&entries, ""), Lookup::One(WireValue::Text(_))));
    assert!(matches!(find(&entries, "c"), Lookup::Absent));
    assert!(matches!(find(&entries, "A"), Lookup::Absent));
    assert!(matches!(find(&Vec::new(), "a"), Lookup::Absent));
}

#[test]
fn same_text_compares_character_by_character() {
    assert!(same_text("", ""));
    assert!(same_text("url", "url"));
    assert!(same_text("héllo ✓", "héllo ✓"));
    assert!(!same_text("url", "urls"));
    assert!(!same_text("url", "urI"));
    assert!(!same_text("", "a"));
    assert!(!same_text("é", "e"));
}

#[test]
fn span_is_written_as_start_and_end() {
    let span = ContentSpan::new(10, 20);
    assert_eq!(text(&span.to_wire()), r#"{"end":20,"start":10}"#);
    assert_eq!(keys(&span.to_wire()), vec!["start", "end"]);
    assert_eq!(ContentSpan::from_wire(&span.to_wire()), Ok(span));
    let odd = ContentSpan::new(i32::MAX, i32::MIN);
    assert_eq!(ContentSpan::from_wire(&parse(&text(&odd.to_wire()))), Ok(odd));
}

#[test]
fn span_bounds_must_be_whole_and_fit_32_bits() {
    assert_eq!(
        ContentSpan::from_wire(&parse(r#"{"start":0,"end":2147483647}"#)),
        Ok(ContentSpan::new(0, 2147483647))
    );
    assert_eq!(
        ContentSpan::from_wire(&parse(r#"{"start":-2147483648,"end":0}"#)),
        Ok(ContentSpan::new(-2147483648, 0))
    );
    assert_eq!(
        ContentSpan::from_wire(&parse(r#"{"start":0,"end":2147483648}"#)),
        Err(ParseError::OutOfRange { field: FieldKey::End })
    );
    assert_eq!(
        ContentSpan::from_wire(&parse(r#"{"start":-2147483649,"end":0}"#)),
        Err(ParseError::OutOfRange { field: FieldKey::Start })
    );
    assert_eq!(
        ContentSpan::from_wire(&parse(r#"{"start":1.0,"end":2}"#)),
        Err(ParseError::TypeMismatch {
            field: FieldKey::Start,
            expected: ValueKind::Integer,
            found: ValueKind::Real
        })
    );
    assert_eq!(
        ContentSpan::from_wire(&parse(r#"{"start":1,"end":null}"#)),
        Err(ParseError::TypeMismatch {
            field: FieldKey::End,
            expected: ValueKind::Integer,
            found: ValueKind::Null
        })
    );
    assert_eq!(
        ContentSpan::from_wire(&parse(r#"{"start":1}"#)),
        Err(ParseError::MissingField { field: FieldKey::End })
    );
    assert_eq!(
        ContentSpan::from_wire(&parse(r#"{"end":1}"#)),
        Err(ParseError::MissingField { field: FieldKey::Start })
    );
}

#[test]
fn alternative_round_trips_and_omits_what_is_absent() {
    let bare = MostRelevantMissedAlternative::new("https://alt.example");
    assert_eq!(text(&bare.to_wire()), r#"{"url":"https://alt.example"}"#);
    let full = MostRelevantMissedAlternative {
        url: "u".to_string(),
        license_name: Some("Apache-2.0".to_string()),
        repository: Some("a/b".to_string()),
    };
    assert_eq!(keys(&full.to_wire()), vec!["url", "licenseName", "repository"]);
    assert_eq!(text(&full.to_wire()), r#"{"licenseName":"Apache-2.0","repository":"a/b","url":"u"}"#);
    let back = MostRelevantMissedAlternative::from_wire(&full.to_wire()).unwrap();
    assert_eq!(back.url, "u");
    assert_eq!(back.license_name, Some("Apache-2.0".to_string()));
    assert_eq!(back.repository, Some("a/b".to_string()));
    assert_eq!(
        MostRelevantMissedAlternative::from_wire(&parse(r#"{"licenseName":"MIT"}"#)).unwrap_err(),
        ParseError::MissingField { field: FieldKey::Url }
    );
}

#[test]
fn empty_reference_is_the_empty_object() {
    assert_eq!(text(&Reference::new().to_wire()), "{}");
    let back = Reference::from_wire(&parse("{}")).unwrap();
    assert_eq!(back.license_name, None);
    assert_eq!(back.repository, None);
    assert_eq!(back.url, None);
    assert_eq!(back.information, None);
    assert_eq!(back.recommendation_content_span, None);
    assert!(back.most_relevant_missed_alternative.is_none());
}

#[test]
fn full_reference_round_trips() {
    let mut reference = Reference::new()
        .with_license_name("MIT")
        .with_repository("example/repo")
        .with_url("https://github.com/example/repo");
    reference.information = Some("seen in tests".to_string());
    reference.recommendation_content_span = Some(ContentSpan::new(3, 9));
    reference.most_relevant_missed_alternative = Some(MostRelevantMissedAlternative {
        url: "https://alt.example".to_string(),
        license_name: Some("GPL-3.0".to_string()),
        repository: None,
    });
    let wire = reference.to_wire();
    assert_eq!(
        keys(&wire),
        vec![
            "licenseName",
            "repository",
            "url",
            "information",
            "recommendationContentSpan",
            "mostRelevantMissedAlternative"
        ]
    );
    let json = text(&wire);
    assert!(json.contains(r#""licenseName":"MIT""#));
    assert!(json.contains(r#""recommendationContentSpan":{"end":9,"start":3}"#));
    assert!(json.contains(
        r#""mostRelevantMissedAlternative":{"licenseName":"GPL-3.0","url":"https://alt.example"}"#
    ));
    let back = Reference::from_wire(&parse(&json)).unwrap();
    assert_eq!(back.license_name, reference.license_name);
    assert_eq!(back.repository, reference.repository);
    assert_eq!(back.url, reference.url);
    assert_eq!(back.information, reference.information);
    assert_eq!(back.recommendation_content_span, Some(ContentSpan::new(3, 9)));
    let alternative = back.most_relevant_missed_alternative.unwrap();
    assert_eq!(alternative.url, "https://alt.example");
    assert_eq!(alternative.license_name, Some("GPL-3.0".to_string()));
    assert_eq!(alternative.repository, None);
}

#[test]
fn partial_reference_writes_only_what_it_has() {
    let mut reference = Reference::new().with_repository("r");
    reference.recommendation_content_span = Some(ContentSpan::new(0, 0));
    assert_eq!(keys(&reference.to_wire()), vec!["repository", "recommendationContentSpan"]);
}

#[test]
fn a_failure_inside_a_nested_object_names_the_field_it_lies_under() {
    assert_eq!(
        Reference::from_wire(&parse(r#"{"recommendationContentSpan":{"start":1}}"#)).unwrap_err(),
        ParseError::Nested {
            field: FieldKey::RecommendationContentSpan,
            cause: Box::new(ParseError::MissingField { field: FieldKey::End }),
        }
    );
    assert_eq!(
        Reference::from_wire(&parse(r#"{"recommendationContentSpan":"1-2"}"#)).unwrap_err(),
        ParseError::Nested {
            field: FieldKey::RecommendationContentSpan,
            cause: Box::new(ParseError::NotAnObject { found: ValueKind::Text }),
        }
    );
    assert_eq!(
        Reference::from_wire(&parse(r#"{"mostRelevantMissedAlternative":{"url":5}}"#)).unwrap_err(),
        ParseError::Nested {
            field: FieldKey::MostRelevantMissedAlternative,
            cause: Box::new(ParseError::TypeMismatch {
                field: FieldKey::Url,
                expected: ValueKind::Text,
                found: ValueKind::Integer
            }),
        }
    );
    assert_eq!(
        CodeQuery::from_wire(&parse(r#"{"codeQueryId":"q","programmingLanguage":{}}"#))
            .unwrap_err(),
        ParseError::Nested {
            field: FieldKey::ProgrammingLanguage,
            cause: Box::new(ParseError::MissingField { field: FieldKey::LanguageName }),
        }
    );
}

#[test]
fn error_path_leads_from_the_root_to_the_failure() {
    assert_eq!(ParseError::NotAnObject { found: ValueKind::List }.path(), vec![]);
    assert_eq!(ParseError::MissingField { field: FieldKey::Url }.path(), vec![FieldKey::Url]);
    assert_eq!(ParseError::DuplicateField { field: FieldKey::Arn }.path(), vec![FieldKey::Arn]);
    assert_eq!(ParseError::OutOfRange { field: FieldKey::End }.path(), vec![FieldKey::End]);
    assert_eq!(
        ParseError::TypeMismatch {
            field: FieldKey::Score,
            expected: ValueKind::Real,
            found: ValueKind::Text
        }
        .path(),
        vec![FieldKey::Score]
    );
    assert_eq!(
        ParseError::MalformedToken { field: FieldKey::UserIntent }.path(),
        vec![FieldKey::UserIntent]
    );
    assert_eq!(
        Reference::from_wire(&parse(r#"{"recommendationContentSpan":{"start":1}}"#))
            .unwrap_err()
            .path(),
        vec![FieldKey::RecommendationContentSpan, FieldKey::End]
    );
    assert_eq!(
        Reference::from_wire(&parse(r#"{"mostRelevantMissedAlternative":[]}"#)).unwrap_err().path(),
        vec![FieldKey::MostRelevantMissedAlternative]
    );
    let deep = ParseError::Nested {
        field: FieldKey::ProgrammingLanguage,
        cause: Box::new(ParseError::Nested {
            field: FieldKey::Name,
            cause: Box::new(ParseError::MissingField { field: FieldKey::Arn }),
        }),
    };
    assert_eq!(deep.path(), vec![FieldKey::ProgrammingLanguage, FieldKey::Name, FieldKey::Arn]);
}

#[test]
fn prompt_without_intent_writes_no_intent_key() {
    let prompt = FollowupPrompt::new("What next?");
    assert_eq!(text(&prompt.to_wire()), r#"{"content":"What next?"}"#);
    let back = FollowupPrompt::from_wire(&prompt.to_wire()).unwrap();
    assert_eq!(back.content, "What next?");
    assert_eq!(back.user_intent, None);
}

#[test]
fn prompt_round_trips_with_its_intent() {
    let json = r#"{"content":"Explain","userIntent":"EXPLAIN_CODE_SELECTION"}"#;
    let prompt = FollowupPrompt::from_wire(&parse(json)).unwrap();
    assert_eq!(prompt.content, "Explain");
    assert_eq!(prompt.user_intent.as_ref().unwrap().token(), "EXPLAIN_CODE_SELECTION");
    assert_eq!(text(&prompt.to_wire()), json);
}

#[test]
fn prompt_with_an_ill_formed_intent_is_refused() {
    assert_eq!(
        FollowupPrompt::from_wire(&parse(r#"{"content":"c","userIntent":"improveCode"}"#))
            .unwrap_err(),
        ParseError::MalformedToken { field: FieldKey::UserIntent }
    );
    assert_eq!(
        FollowupPrompt::from_wire(&parse(r#"{"content":"c","userIntent":""}"#)).unwrap_err(),
        ParseError::MalformedToken { field: FieldKey::UserIntent }
    );
    assert_eq!(
        FollowupPrompt::from_wire(&parse(r#"{"content":"c","userIntent":4}"#)).unwrap_err(),
        ParseError::TypeMismatch {
            field: FieldKey::UserIntent,
            expected: ValueKind::Text,
            found: ValueKind::Integer
        }
    );
    assert_eq!(
        FollowupPrompt::from_wire(&parse(r#"{"userIntent":"IMPROVE_CODE"}"#)).unwrap_err(),
        ParseError::MissingField { field: FieldKey::Content }
    );
}

#[test]
fn language_reads_back_what_it_wrote() {
    let language = ProgrammingLanguage::from_wire(&parse(r#"{"languageName":"rust"}"#)).unwrap();
    assert_eq!(language.language_name, "rust");
    assert_eq!(keys(&language.to_wire()), vec!["languageName"]);
    assert_eq!(
        ProgrammingLanguage::from_wire(&parse(r#"{"language_name":"rust"}"#)).unwrap_err(),
        ParseError::MissingField { field: FieldKey::LanguageName }
    );
}

#[test]
fn customization_round_trips_and_omits_an_absent_name() {
    let bare = Customization { arn: "arn:aws:codewhisperer:1".to_string(), name: None };
    assert_eq!(text(&bare.to_wire()), r#"{"arn":"arn:aws:codewhisperer:1"}"#);
    let named = Customization { arn: "a".to_string(), name: Some("mine".to_string()) };
    assert_eq!(text(&named.to_wire()), r#"{"arn":"a","name":"mine"}"#);
    let back = Customization::from_wire(&named.to_wire()).unwrap();
    assert_eq!(back.arn, "a");
    assert_eq!(back.name, Some("mine".to_string()));
    assert_eq!(
        Customization::from_wire(&parse(r#"{"name":"mine"}"#)).unwrap_err(),
        ParseError::MissingField { field: FieldKey::Arn }
    );
}

#[test]
fn query_round_trips_and_omits_what_is_absent() {
    let bare = CodeQuery::new("query-123");
    assert_eq!(text(&bare.to_wire()), r#"{"codeQueryId":"query-123"}"#);
    let query = CodeQuery::new("query-123")
        .with_programming_language(ProgrammingLanguage::new("python"))
        .with_user_input_message_id("msg-456");
    assert_eq!(
        text(&query.to_wire()),
        r#"{"codeQueryId":"query-123","programmingLanguage":{"languageName":"python"},"userInputMessageId":"msg-456"}"#
    );
    assert_eq!(
        keys(&query.to_wire()),
        vec!["codeQueryId", "programmingLanguage", "userInputMessageId"]
    );
    let back = CodeQuery::from_wire(&query.to_wire()).unwrap();
    assert_eq!(back.code_query_id, "query-123");
    assert_eq!(back.programming_language.unwrap().language_name, "python");
    assert_eq!(back.user_input_message_id, Some("msg-456".to_string()));
}

#[test]
fn every_field_has_its_two_names() {
    let names = [
        (FieldKey::Url, "url", "url"),
        (FieldKey::Title, "title", "title"),
        (FieldKey::Snippet, "snippet", "snippet"),
        (FieldKey::Score, "score", "score"),
        (FieldKey::LicenseName, "license_name", "licenseName"),
        (FieldKey::Repository, "repository", "repository"),
        (FieldKey::Information, "information", "information"),
        (
            FieldKey::RecommendationContentSpan,
            "recommendation_content_span",
            "recommendationContentSpan",
        ),
        (
            FieldKey::MostRelevantMissedAlternative,
            "most_relevant_missed_alternative",
            "mostRelevantMissedAlternative",
        ),
        (FieldKey::Content, "content", "content"),
        (FieldKey::UserIntent, "user_intent", "userIntent"),
        (FieldKey::LanguageName, "language_name", "languageName"),
        (FieldKey::Arn, "arn", "arn"),
        (FieldKey::Name, "name", "name"),
        (FieldKey::CodeQueryId, "code_query_id", "codeQueryId"),
        (FieldKey::ProgrammingLanguage, "programming_language", "programmingLanguage"),
        (FieldKey::UserInputMessageId, "user_input_message_id", "userInputMessageId"),
        (FieldKey::Start, "start", "start"),
        (FieldKey::End, "end", "end"),
    ];
    for (key, field, wire) in names {
        assert_eq!(key.field_name(), field);
        assert_eq!(key.wire_name(), wire);
    }
    for (i, (a, _, _)) in names.iter().enumerate() {
        for (j, (b, _, _)) in names.iter().enumerate() {
            assert_eq!(a.wire_name() == b.wire_name(), i == j);
        }
    }
}

#[test]
fn kinds_of_numbers() {
    assert_eq!(Number::Integer(-4).kind(), ValueKind::Integer);
    assert_eq!(Number::Real(0).kind(), ValueKind::Real);
    assert_eq!(WireValue::Number(Number::Real(1)).kind(), ValueKind::Real);
    assert_eq!(WireValue::Object(Vec::new()).kind(), ValueKind::Object);
}
