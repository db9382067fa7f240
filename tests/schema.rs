use translate_client::{
    BatchTranslateTextInputConfig, DetectLanguageRequest,
    create_glossary, FromJson, GcsSource, Glossary, GlossaryInputConfig, Json, LanguageCodePair,
    LanguageCodesSet, ListGlossariesResponse, MimeType, Operation, Status, ToJson,
    TranslateTextGlossaryConfig,
};

fn obj(members: Vec<(&str, Json)>) -> Json {
    Json::Object(members.into_iter().map(|(k, v)| (k.to_string(), v)).collect())
}

fn s(v: &str) -> Json {
    Json::Str(v.to_string())
}

fn sample_glossary() -> Glossary {
    Glossary::new(
        "projects/p/locations/l/glossaries/test".to_string(),
        GlossaryInputConfig { gcs_source: GcsSource { input_uri: "gs://bucket/test.tsv".to_string() } },
        LanguageCodePair { source_language_code: "en".to_string(), target_language_code: "zh".to_string() },
    )
}

#[test]
fn glossary_new_sets_only_the_pair() {
    let g = sample_glossary();
    assert_eq!(g.name, "projects/p/locations/l/glossaries/test");
    assert!(g.entry_count.is_none() && g.submit_time.is_none() && g.end_time.is_none());
    assert!(g.language_codes_set.is_none());
    let pair = g.language_pair.expect("a pair");
    assert_eq!(pair.source_language_code, "en");
    assert_eq!(pair.target_language_code, "zh");
}

#[test]
fn glossary_round_trip_omits_absent_fields() {
    let g = sample_glossary();
    let j = g.to_json();
    match &j {
        Json::Object(fields) => {
            let keys: Vec<&str> = fields.iter().map(|(k, _)| k.as_str()).collect();
            assert_eq!(keys, vec!["name", "inputConfig", "languagePair"]);
        },
        other => panic!("unexpected {:?}", other),
    }
    let back = Glossary::from_json(j).expect("decoded");
    assert_eq!(back.name, g.name);
    assert_eq!(back.input_config.gcs_source.input_uri, "gs://bucket/test.tsv");
    assert!(back.entry_count.is_none() && back.language_codes_set.is_none());
    assert_eq!(back.language_pair.expect("a pair").target_language_code, "zh");
}

#[test]
fn glossary_round_trip_with_every_field() {
    let g = Glossary {
        name: "n".to_string(),
        input_config: GlossaryInputConfig { gcs_source: GcsSource { input_uri: "gs://b/x".to_string() } },
        entry_count: Some(42),
        submit_time: Some("2019-01-01T00:00:00Z".to_string()),
        end_time: Some("2019-01-01T00:01:00Z".to_string()),
        language_pair: None,
        language_codes_set: Some(LanguageCodesSet { language_codes: vec!["en".to_string(), "fr".to_string()] }),
    };
    let back = Glossary::from_json(g.to_json()).expect("decoded");
    assert_eq!(back.entry_count, Some(42));
    assert_eq!(back.submit_time, g.submit_time);
    assert_eq!(back.end_time, g.end_time);
    assert!(back.language_pair.is_none());
    assert_eq!(back.language_codes_set.expect("a set").language_codes, vec!["en".to_string(), "fr".to_string()]);
}

#[test]
fn glossary_config_round_trip() {
    for ignore_case in [None, Some(true), Some(false)] {
        let c = TranslateTextGlossaryConfig { glossary: "g".to_string(), ignore_case };
        let back = TranslateTextGlossaryConfig::from_json(c.to_json()).expect("decoded");
        assert_eq!(back.glossary, "g");
        assert_eq!(back.ignore_case, ignore_case);
    }
}

#[test]
fn null_reads_as_absent() {
    let j = obj(vec![("glossary", s("g")), ("ignoreCase", Json::Null)]);
    let c = TranslateTextGlossaryConfig::from_json(j).expect("decoded");
    assert!(c.ignore_case.is_none());
}

#[test]
fn missing_required_field_is_rejected() {
    let j = obj(vec![("ignoreCase", Json::Bool(true))]);
    assert!(TranslateTextGlossaryConfig::from_json(j).is_none());
}

#[test]
fn operation_from_wire() {
    let j = obj(vec![
        ("name", s("projects/p/locations/l/operations/o")),
        ("metadata", obj(vec![("state", s("RUNNING"))])),
        ("done", Json::Bool(true)),
        ("error", obj(vec![("code", Json::UInt(5)), ("message", s("gone")), ("details", Json::Array(vec![]))])),
    ]);
    let op = Operation::from_json(j).expect("decoded");
    assert_eq!(op.done, Some(true));
    assert!(op.response.is_none());
    let e: Status = op.error.expect("an error");
    assert_eq!(e.code, 5);
    assert_eq!(e.message, "gone");
    assert_eq!(e.details.map(|d| d.len()), Some(0));
}

#[test]
fn operation_requires_metadata() {
    assert!(Operation::from_json(obj(vec![("name", s("o"))])).is_none());
    let op = Operation::from_json(obj(vec![("name", s("o")), ("metadata", Json::Null)])).expect("decoded");
    assert!(matches!(op.metadata, Json::Null));
    assert!(op.done.is_none() && op.error.is_none() && op.response.is_none());
}

#[test]
fn status_code_out_of_range_is_rejected() {
    let j = obj(vec![("code", Json::UInt(1 << 40)), ("message", s("m"))]);
    assert!(Status::from_json(j).is_none());
}

#[test]
fn list_glossaries_page() {
    let j = obj(vec![
        ("glossaries", Json::Array(vec![sample_glossary().to_json()])),
        ("nextPageToken", s("t2")),
    ]);
    let page = ListGlossariesResponse::from_json(j).expect("decoded");
    assert_eq!(page.glossaries.len(), 1);
    assert_eq!(page.next_page_token.as_deref(), Some("t2"));
}

#[test]
fn create_glossary_carries_it() {
    let c = create_glossary("p", "l", "tok", &sample_glossary());
    assert!(c.url.ends_with("/projects/p/locations/l/glossaries"));
    assert!(c.body.is_some());
}

#[test]
fn mime_type_names() {
    assert_eq!(MimeType::Plain.as_str(), "text/plain");
    assert_eq!(MimeType::Html.as_str(), "text/html");
}

#[test]
fn json_text_is_compact_and_escaped() {
    let j = obj(vec![
        ("a", Json::Array(vec![Json::Null, Json::Bool(true), Json::UInt(12), Json::Number("-1.5".to_string())])),
        ("b", s("say \"hi\"\n")),
        ("c", obj(vec![])),
    ]);
    assert_eq!(j.to_text(), "{\"a\":[null,true,12,-1.5],\"b\":\"say \\\"hi\\\"\\n\",\"c\":{}}");
    assert_eq!(Json::Array(vec![]).to_text(), "[]");
    assert_eq!(s("a\u{1}\u{1f}\\/\t").to_text(), "\"a\\u0001\\u001f\\\\/\\t\"");
}

#[test]
fn glossary_text() {
    let g = Glossary::new(
        "g".to_string(),
        GlossaryInputConfig { gcs_source: GcsSource { input_uri: "gs://b/t.tsv".to_string() } },
        LanguageCodePair { source_language_code: "en".to_string(), target_language_code: "zh".to_string() },
    );
    assert_eq!(
        g.to_json().to_text(),
        "{\"name\":\"g\",\"inputConfig\":{\"gcsSource\":{\"inputUri\":\"gs://b/t.tsv\"}},\"languagePair\":{\"sourceLanguageCode\":\"en\",\"targetLanguageCode\":\"zh\"}}"
    );
}

#[test]
fn repeated_label_keys_are_not_well_formed() {
    let mut r = DetectLanguageRequest { model: None, mime_type: None, labels: None, content: "x".to_string() };
    assert!(r.is_well_formed());
    r.labels = Some(vec![("a".to_string(), "1".to_string()), ("b".to_string(), "2".to_string())]);
    assert!(r.is_well_formed());
    r.labels = Some(vec![("a".to_string(), "1".to_string()), ("b".to_string(), "2".to_string()), ("a".to_string(), "3".to_string())]);
    assert!(!r.is_well_formed());
}

#[test]
fn batch_input_config_text() {
    let c = BatchTranslateTextInputConfig {
        mime_type: Some(MimeType::Plain),
        gcs_source: GcsSource { input_uri: "gs://mb_input/test.tsv".to_string() },
    };
    assert_eq!(c.to_json().to_text(), "{\"mimeType\":\"text/plain\",\"gcsSource\":{\"inputUri\":\"gs://mb_input/test.tsv\"}}");
}

#[test]
fn glossary_config_without_ignore_case_text() {
    let c = TranslateTextGlossaryConfig { glossary: "g".to_string(), ignore_case: None };
    assert_eq!(c.to_json().to_text(), "{\"glossary\":\"g\"}");
}

#[test]
fn negative_status_code() {
    let j = obj(vec![("code", Json::NegInt(-3)), ("message", s("m"))]);
    assert_eq!(Status::from_json(j).expect("decoded").code, -3);
    let j = obj(vec![("code", Json::NegInt(-(1i64 << 40))), ("message", s("m"))]);
    assert!(Status::from_json(j).is_none());
    assert_eq!(Json::NegInt(i64::MIN).to_text(), "-9223372036854775808");
}
