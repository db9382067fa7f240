use translate_client::{
    bearer, cancel_operation, classify_reply, decimal_string, delete_glossary, detect_language,
    finish_call, finish_empty_call, get_supported_languages, list_glossaries, list_operations,
    translate_text, DetectLanguageRequest, DetectLanguageResponse, Error, GetSupportedLanguagesQueryParams, Json,
    ListGlossariesQueryParams, ListOperationsQueryParams, Method, Operation, TranslateTextRequest,
    TranslateTextResponse, code,
};

fn obj(members: Vec<(&str, Json)>) -> Json {
    Json::Object(members.into_iter().map(|(k, v)| (k.to_string(), v)).collect())
}

fn s(v: &str) -> Json {
    Json::Str(v.to_string())
}

fn member<'a>(j: &'a Json, key: &str) -> Option<&'a Json> {
    match j {
        Json::Object(fields) => fields.iter().find(|(k, _)| k == key).map(|(_, v)| v),
        _ => None,
    }
}

#[test]
fn bearer_trims_the_token() {
    assert_eq!(bearer("  abc.def \n"), "Bearer abc.def");
    assert_eq!(bearer("x"), "Bearer x");
    assert_eq!(bearer("\u{3000}tok\u{a0}\t"), "Bearer tok");
}

#[test]
fn decimal_digits() {
    assert_eq!(decimal_string(0), "0");
    assert_eq!(decimal_string(7), "7");
    assert_eq!(decimal_string(1234), "1234");
    assert_eq!(decimal_string(u64::MAX), "18446744073709551615");
}

#[test]
fn detect_language_request() {
    let request = DetectLanguageRequest {
        model: None,
        mime_type: None,
        labels: None,
        content: "我是谁是我".to_string(),
    };
    let c = detect_language("p1", "global", "tok", &request);
    assert_eq!(c.method, Method::Post);
    assert_eq!(c.url, "https://translation.googleapis.com/v3beta1/projects/p1/locations/global:detectLanguage");
    assert_eq!(c.authorization, "Bearer tok");
    let body = c.body.expect("a body");
    match &body {
        Json::Object(fields) => assert_eq!(fields.len(), 1),
        other => panic!("unexpected {:?}", other),
    }
    assert!(matches!(member(&body, "content"), Some(Json::Str(t)) if t == "我是谁是我"));
}

#[test]
fn translate_text_request_omits_absent_source() {
    let request = TranslateTextRequest {
        contents: vec!["player".to_string()],
        mime_type: None,
        source_language_code: None,
        target_language_code: "zh".to_string(),
        model: None,
        glossary_config: None,
        labels: None,
    };
    let c = translate_text("p", "l", "tok", &request);
    assert!(c.url.ends_with("/projects/p/locations/l:translateText"));
    let body = c.body.expect("a body");
    assert!(member(&body, "sourceLanguageCode").is_none());
    assert!(matches!(member(&body, "targetLanguageCode"), Some(Json::Str(t)) if t == "zh"));
    match member(&body, "contents") {
        Some(Json::Array(items)) => {
            assert_eq!(items.len(), 1);
            assert!(matches!(&items[0], Json::Str(t) if t == "player"));
        },
        other => panic!("unexpected {:?}", other),
    }
}

#[test]
fn translate_text_response_with_detected_language() {
    let body = obj(vec![(
        "translations",
        Json::Array(vec![obj(vec![("translatedText", s("播放器")), ("detectedLanguageCode", s("en"))])]),
    )]);
    let r: TranslateTextResponse = finish_call(200, Ok(body)).expect("decoded");
    assert_eq!(r.translations.len(), 1);
    assert_eq!(r.translations[0].translated_text, "播放器");
    assert_eq!(r.translations[0].detected_language_code.as_deref(), Some("en"));
    assert!(r.translations[0].model.is_none());
    assert!(r.glossary_translations.is_none());
}

#[test]
fn success_body_of_the_wrong_shape_is_a_decode_error() {
    let body = obj(vec![("translations", s("nope"))]);
    let r: Result<TranslateTextResponse, Error> = finish_call(200, Ok(body));
    assert!(matches!(r, Err(Error::SerdeJsonError(_))));
}

#[test]
fn error_status_with_json_body_is_a_remote_error() {
    let body = obj(vec![("error", obj(vec![("code", Json::UInt(403)), ("message", s("denied"))]))]);
    let r: Result<Operation, Error> = finish_call(403, Ok(body));
    match r {
        Err(Error::ResponseError(code, payload)) => {
            assert_eq!(code, 403);
            assert!(member(&payload, "error").is_some());
        },
        other => panic!("unexpected {:?}", other),
    }
}

#[test]
fn error_status_with_unreadable_body_is_a_decode_error() {
    let r: Result<Operation, Error> = finish_call(500, Err("expected value at line 1".to_string()));
    assert!(matches!(r, Err(Error::SerdeJsonError(m)) if m == "expected value at line 1"));
}

#[test]
fn deleting_a_missing_glossary_is_not_found() {
    let c = delete_glossary("projects/p/locations/l/glossaries/test", "tok");
    assert_eq!(c.method, Method::Delete);
    assert!(c.json_content_type);
    assert_eq!(c.url, "https://translation.googleapis.com/v3beta1/projects/p/locations/l/glossaries/test");
    let body = obj(vec![("error", obj(vec![("code", Json::UInt(404)), ("status", s("NOT_FOUND"))]))]);
    let r: Result<Operation, Error> = finish_call(404, Ok(body));
    let nothing_to_delete = matches!(r, Err(Error::ResponseError(status, _)) if status == code::NOT_FOUND);
    assert!(nothing_to_delete);
}

#[test]
fn empty_answer_ignores_the_body() {
    let c = cancel_operation("projects/p/locations/l/operations/o", "tok");
    assert!(!c.expects_body);
    assert!(c.url.ends_with("operations/o:cancel"));
    assert!(finish_empty_call(200, Err("EOF while parsing".to_string())).is_ok());
    assert!(matches!(finish_empty_call(404, Ok(obj(vec![]))), Err(Error::ResponseError(404, _))));
}

#[test]
fn classify_success_without_body() {
    assert!(matches!(classify_reply(200, Ok(Json::Null), false), Ok(None)));
    assert!(matches!(classify_reply(200, Ok(Json::Null), true), Ok(Some(Json::Null))));
}

#[test]
fn supported_languages_query() {
    let params = GetSupportedLanguagesQueryParams { display_language_code: Some("en".to_string()), model: None };
    let c = get_supported_languages("p", "l", "tok", &params);
    assert_eq!(c.method, Method::Get);
    assert!(c.body.is_none());
    assert_eq!(c.url, "https://translation.googleapis.com/v3beta1/projects/p/locations/l/supportedLanguages?displayLanguageCode=en");
    let none = GetSupportedLanguagesQueryParams { display_language_code: None, model: None };
    let c = get_supported_languages("p", "l", "tok", &none);
    assert!(c.url.ends_with("/supportedLanguages?"));
}

#[test]
fn list_queries_are_url_encoded() {
    let params = ListGlossariesQueryParams { page_size: Some(25), page_token: Some("a b&c".to_string()), filter: None };
    let c = list_glossaries("p", "l", "tok", &params);
    assert!(c.url.ends_with("/glossaries?pageSize=25&pageToken=a+b%26c"));
    let params = ListOperationsQueryParams { filter: Some("done=true".to_string()), page_size: None, page_token: None };
    let c = list_operations("p", "l", "tok", &params);
    assert!(c.url.ends_with("/operations?filter=done%3Dtrue"));
}

#[test]
fn detect_language_response_scenario() {
    // {"languages":[{"languageCode":"zh","confidence":0.98}]}
    let body = obj(vec![(
        "languages",
        Json::Array(vec![obj(vec![("languageCode", s("zh")), ("confidence", Json::Number("0.98".to_string()))])]),
    )]);
    let r: DetectLanguageResponse = finish_call(200, Ok(body)).expect("decoded");
    assert_eq!(r.languages.len(), 1);
    assert_eq!(r.languages[0].language_code, "zh");
    assert_eq!(r.languages[0].confidence, "0.98");
    let confidence: f32 = r.languages[0].confidence.parse().expect("a number");
    assert!((confidence - 0.98).abs() < 1e-6);
}

#[test]
fn integer_confidence_reads_as_its_digits() {
    let body = obj(vec![("languages", Json::Array(vec![obj(vec![("languageCode", s("en")), ("confidence", Json::UInt(1))])]))]);
    let r: DetectLanguageResponse = finish_call(200, Ok(body)).expect("decoded");
    assert_eq!(r.languages[0].confidence, "1");
}
