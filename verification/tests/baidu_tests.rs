use fanyi::baidu::BaiduTranslator;
use fanyi::config::BaiduConfig;
use fanyi::error::TranslationError;
use fanyi::translator::Translator;

fn translator() -> BaiduTranslator {
    BaiduTranslator::new(BaiduConfig {
        app_id: String::from("id1"),
        secret_key: String::from("secret"),
        ..BaiduConfig::default()
    })
}

#[test]
fn prepared_request_holds_the_wire_fields() {
    let t = translator();
    let req = t.prepare_request("hello", "ZH-CN", "English", "1000").unwrap();
    assert_eq!(req.url, "https://fanyi-api.baidu.com/api/trans/vip/translate");
    assert_eq!(req.fields.len(), 6);
    assert_eq!(req.fields[0], (String::from("q"), String::from("hello")));
    assert_eq!(req.fields[1], (String::from("from"), String::from("zh")));
    assert_eq!(req.fields[2], (String::from("to"), String::from("en")));
    assert_eq!(req.fields[3], (String::from("appid"), String::from("id1")));
    assert_eq!(req.fields[4], (String::from("salt"), String::from("1000")));
    assert_eq!(
        req.fields[5],
        (String::from("sign"), String::from("94ad8c1b39dbe7d2781fffafa41ef2a1"))
    );
}

#[test]
fn blank_text_is_rejected_before_any_request() {
    let t = translator();
    assert!(matches!(
        t.prepare_request("", "en", "zh", "1"),
        Err(TranslationError::EmptyText)
    ));
    assert!(matches!(
        t.prepare_request(" \t\r\n ", "en", "zh", "1"),
        Err(TranslationError::EmptyText)
    ));
    // The whole Unicode White_Space set counts as blank, as str::trim sees it.
    assert!(matches!(
        t.prepare_request("\u{a0}\u{3000}\u{2028}", "en", "zh", "1"),
        Err(TranslationError::EmptyText)
    ));
    assert!(t.prepare_request(" x ", "en", "zh", "1").is_ok());
}

#[test]
fn supported_languages_table() {
    let t = translator();
    let langs = t.supported_languages();
    assert_eq!(langs.len(), 26);
    assert_eq!(langs[0], ("auto", "auto detect"));
    assert_eq!(langs[1], ("zh", "chinese"));
    assert_eq!(langs[2], ("en", "english"));
    assert_eq!(langs[25], ("vie", "vietnamese"));
}

#[test]
fn provider_name_is_stable() {
    let t = translator();
    assert_eq!(t.name(), "Baidu Translate");
}

#[test]
fn provider_works_through_the_capability_interface() {
    fn round_trip<T: Translator>(t: &T) -> String {
        let req = t
            .prepare_request("hi", "en", "zh", "42")
            .expect("non-blank text must prepare");
        assert_eq!(req.fields[0].1, "hi");
        let body =
            "{\"from\":\"en\",\"to\":\"zh\",\"trans_result\":[{\"src\":\"hi\",\"dst\":\"\u{4f60}\u{597d}\"}]}";
        t.interpret_response(200, body, "en", "zh").unwrap().target
    }
    let t = translator();
    assert_eq!(round_trip(&t), "\u{4f60}\u{597d}");
}

#[test]
fn error_code_table_is_exact_match() {
    let t = translator();
    assert_eq!(t.handle_api_error("52001"), "request timed out, please retry");
    assert_eq!(t.handle_api_error("52002"), "system error, please retry");
    assert_eq!(t.handle_api_error("52003"), "unauthorized user: check your app id");
    assert_eq!(t.handle_api_error("54000"), "required parameter missing");
    assert_eq!(t.handle_api_error("54001"), "bad signature");
    assert_eq!(t.handle_api_error("54004"), "insufficient account balance");
    assert_eq!(t.handle_api_error("54005"), "long-query requests are rate limited");
    assert_eq!(t.handle_api_error("58000"), "illegal client ip");
    assert_eq!(t.handle_api_error("58001"), "translation language direction not supported");
    assert_eq!(t.handle_api_error("58002"), "the translation service is currently disabled");
    assert_eq!(t.handle_api_error("90107"), "authentication not passed or not yet effective");
    // Substring matches must not count.
    assert_eq!(t.handle_api_error("5400"), "unknown error: 5400");
    assert_eq!(t.handle_api_error("540031"), "unknown error: 540031");
}
