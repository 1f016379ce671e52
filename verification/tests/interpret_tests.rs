use fanyi::baidu::BaiduTranslator;
use fanyi::config::BaiduConfig;
use fanyi::error::TranslationError;
use fanyi::json::parse_envelope;

fn translator() -> BaiduTranslator {
    BaiduTranslator::new(BaiduConfig::default())
}

const OK_BODY: &str =
    "{\"from\":\"en\",\"to\":\"zh\",\"trans_result\":[{\"src\":\"hi\",\"dst\":\"\u{4f60}\u{597d}\"}]}";

#[test]
fn detected_language_reported_for_auto() {
    let t = translator();
    let r = t.interpret_response(200, OK_BODY, "auto", "zh").unwrap();
    assert_eq!(r.source, "hi");
    assert_eq!(r.target, "\u{4f60}\u{597d}");
    assert_eq!(r.from, "auto");
    assert_eq!(r.to, "zh");
    assert_eq!(r.detected_language, Some(String::from("en")));
}

#[test]
fn no_detected_language_without_auto() {
    let t = translator();
    let r = t.interpret_response(200, OK_BODY, "en", "zh").unwrap();
    assert_eq!(r.detected_language, None);
    assert_eq!(r.source, "hi");
    assert_eq!(r.target, "\u{4f60}\u{597d}");
}

#[test]
fn no_detection_when_provider_echoes_auto() {
    let t = translator();
    let body =
        "{\"from\":\"auto\",\"to\":\"zh\",\"trans_result\":[{\"src\":\"hi\",\"dst\":\"x\"}]}";
    let r = t.interpret_response(200, body, "auto", "zh").unwrap();
    assert_eq!(r.detected_language, None);
}

#[test]
fn provider_error_code_maps_to_rate_limit_cause() {
    let t = translator();
    let body = "{\"from\":\"en\",\"to\":\"zh\",\"trans_result\":[],\"error_code\":\"54003\",\"error_msg\":\"x\"}";
    let e = t.interpret_response(200, body, "en", "zh").unwrap_err();
    match e {
        TranslationError::Provider { code, message } => {
            assert_eq!(code, "54003");
            assert!(message.contains("rate limited"));
            assert_eq!(message, "rate limited: reduce the request frequency");
        }
        _ => panic!("expected a provider error"),
    }
}

#[test]
fn unknown_provider_code_keeps_the_code() {
    let t = translator();
    let body = "{\"from\":\"en\",\"to\":\"zh\",\"trans_result\":[],\"error_code\":\"99999\"}";
    let e = t.interpret_response(200, body, "en", "zh").unwrap_err();
    match e {
        TranslationError::Provider { code, message } => {
            assert_eq!(code, "99999");
            assert_eq!(message, "unknown error: 99999");
        }
        _ => panic!("expected a provider error"),
    }
}

#[test]
fn empty_trans_result_is_empty_result_error() {
    let t = translator();
    let body = "{\"from\":\"en\",\"to\":\"zh\",\"trans_result\":[]}";
    let e = t.interpret_response(200, body, "en", "zh").unwrap_err();
    assert!(matches!(e, TranslationError::EmptyResult));
}

#[test]
fn empty_trans_result_whatever_the_other_fields() {
    let t = translator();
    let body = "{\"to\":\"zh\",\"error_msg\":\"odd\",\"from\":\"en\",\"trans_result\":[]}";
    let e = t.interpret_response(200, body, "auto", "zh").unwrap_err();
    assert!(matches!(e, TranslationError::EmptyResult));
}

#[test]
fn provider_error_takes_precedence_over_empty_result() {
    let t = translator();
    let body =
        "{\"from\":\"en\",\"to\":\"zh\",\"trans_result\":[],\"error_code\":\"52001\"}";
    let e = t.interpret_response(200, body, "en", "zh").unwrap_err();
    assert!(matches!(e, TranslationError::Provider { .. }));
}

#[test]
fn http_failure_preserves_status_and_body() {
    let t = translator();
    let e = t.interpret_response(502, "bad gateway", "en", "zh").unwrap_err();
    match e {
        TranslationError::Http { status, body } => {
            assert_eq!(status, 502);
            assert_eq!(body, "bad gateway");
        }
        _ => panic!("expected an http error"),
    }
    assert!(t.interpret_response(199, OK_BODY, "en", "zh").is_err());
    assert!(t.interpret_response(300, OK_BODY, "en", "zh").is_err());
    assert!(t.interpret_response(299, OK_BODY, "en", "zh").is_ok());
}

#[test]
fn malformed_body_is_a_parse_error() {
    let t = translator();
    let e = t.interpret_response(200, "not json at all", "en", "zh").unwrap_err();
    match e {
        TranslationError::Parse { raw_body } => assert_eq!(raw_body, "not json at all"),
        _ => panic!("expected a parse error"),
    }
}

#[test]
fn missing_required_field_is_a_parse_error() {
    let t = translator();
    let body = "{\"error_code\":\"54003\"}";
    let e = t.interpret_response(200, body, "en", "zh").unwrap_err();
    assert!(matches!(e, TranslationError::Parse { .. }));
}

#[test]
fn first_translation_wins() {
    let t = translator();
    let body = "{\"from\":\"en\",\"to\":\"zh\",\"trans_result\":[{\"src\":\"a\",\"dst\":\"b\"},{\"src\":\"c\",\"dst\":\"d\"}]}";
    let r = t.interpret_response(200, body, "en", "zh").unwrap();
    assert_eq!(r.source, "a");
    assert_eq!(r.target, "b");
}

#[test]
fn envelope_fields_parse_in_any_order() {
    let body = "{ \"trans_result\" : [ { \"dst\" : \"b\" , \"src\" : \"a\" } ] , \"to\" : \"zh\" , \"from\" : \"en\" }";
    let env = parse_envelope(body).unwrap();
    assert_eq!(env.from, "en");
    assert_eq!(env.to, "zh");
    assert_eq!(env.trans_result.len(), 1);
    assert_eq!(env.trans_result[0].src, "a");
    assert_eq!(env.trans_result[0].dst, "b");
    assert_eq!(env.error_code, None);
    assert_eq!(env.error_msg, None);
}

#[test]
fn string_escapes_decode() {
    let body = "{\"from\":\"en\",\"to\":\"zh\",\"trans_result\":[{\"src\":\"a\\\"b\\\\c\",\"dst\":\"x\\ny\\tz\\/\"}]}";
    let env = parse_envelope(body).unwrap();
    assert_eq!(env.trans_result[0].src, "a\"b\\c");
    assert_eq!(env.trans_result[0].dst, "x\ny\tz/");
}

#[test]
fn unicode_escapes_decode() {
    let body = "{\"from\":\"en\",\"to\":\"zh\",\"trans_result\":[{\"src\":\"hi\",\"dst\":\"\\u4f60\\u597d\\u0041\\uFB01\"}]}";
    let env = parse_envelope(body).unwrap();
    assert_eq!(env.trans_result[0].dst, "\u{4f60}\u{597d}A\u{fb01}");
}

#[test]
fn surrogate_pairs_decode() {
    // A high and low surrogate pair names one character beyond the basic
    // plane, as conforming JSON writers emit it.
    let body = "{\"from\":\"en\",\"to\":\"zh\",\"trans_result\":[{\"src\":\"a\",\"dst\":\"x\\uD83D\\uDE00y\"}]}";
    let env = parse_envelope(body).unwrap();
    assert_eq!(env.trans_result[0].dst, "x\u{1f600}y");
}

#[test]
fn bad_escapes_are_rejected() {
    // A lone high surrogate escape, not followed by a low surrogate.
    assert!(parse_envelope(
        "{\"from\":\"en\",\"to\":\"zh\",\"trans_result\":[{\"src\":\"a\",\"dst\":\"\\ud83d\"}]}"
    )
    .is_none());
    // A high surrogate followed by a non-surrogate escape.
    assert!(parse_envelope(
        "{\"from\":\"en\",\"to\":\"zh\",\"trans_result\":[{\"src\":\"a\",\"dst\":\"\\ud83d\\u0041\"}]}"
    )
    .is_none());
    // A lone low surrogate escape.
    assert!(parse_envelope(
        "{\"from\":\"en\",\"to\":\"zh\",\"trans_result\":[{\"src\":\"a\",\"dst\":\"\\udc00\"}]}"
    )
    .is_none());
    // Not hexadecimal.
    assert!(parse_envelope(
        "{\"from\":\"en\",\"to\":\"zh\",\"trans_result\":[{\"src\":\"a\",\"dst\":\"\\uZZZZ\"}]}"
    )
    .is_none());
    // An unknown single-character escape.
    assert!(parse_envelope(
        "{\"from\":\"en\",\"to\":\"zh\",\"trans_result\":[{\"src\":\"a\",\"dst\":\"\\q\"}]}"
    )
    .is_none());
    // An escape cut short by the end of input.
    assert!(parse_envelope("{\"from\":\"\\u12").is_none());
}

#[test]
fn envelope_rejects_what_is_outside_the_grammar() {
    // Duplicate member.
    assert!(parse_envelope(
        "{\"from\":\"en\",\"from\":\"en\",\"to\":\"zh\",\"trans_result\":[]}"
    )
    .is_none());
    // Trailing garbage.
    assert!(parse_envelope(
        "{\"from\":\"en\",\"to\":\"zh\",\"trans_result\":[]} extra"
    )
    .is_none());
    // Unterminated string.
    assert!(parse_envelope("{\"from\":\"en").is_none());
    // A member outside the envelope.
    assert!(parse_envelope(
        "{\"from\":\"en\",\"to\":\"zh\",\"trans_result\":[],\"other\":\"x\"}"
    )
    .is_none());
    // Empty input.
    assert!(parse_envelope("").is_none());
}

#[test]
fn error_messages_render() {
    let e = TranslationError::Http { status: 404, body: String::from("nf") };
    assert_eq!(e.message(), "http request failed: 404 - nf");
    let e = TranslationError::EmptyText;
    assert_eq!(e.message(), "the text to translate must not be empty");
    let e = TranslationError::Transport {
        url: String::from("http://api"),
        detail: String::from("timed out"),
    };
    assert_eq!(
        e.message(),
        "failed to send the translation request to http://api: timed out"
    );
    let e = TranslationError::Provider {
        code: String::from("54004"),
        message: String::from("insufficient account balance"),
    };
    assert_eq!(
        e.message(),
        "translation api error (54004): insufficient account balance"
    );
    let e = TranslationError::Parse { raw_body: String::from("<html>") };
    assert_eq!(e.message(), "failed to parse the api response: <html>");
    let e = TranslationError::EmptyResult;
    assert_eq!(e.message(), "the translation result is empty");
}
