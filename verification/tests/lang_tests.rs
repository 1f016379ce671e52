use fanyi::lang::normalize_language_code;

#[test]
fn normalize_known_aliases() {
    assert_eq!(normalize_language_code("zh"), "zh");
    assert_eq!(normalize_language_code("zh-cn"), "zh");
    assert_eq!(normalize_language_code("chinese"), "zh");
    assert_eq!(normalize_language_code("en"), "en");
    assert_eq!(normalize_language_code("english"), "en");
    assert_eq!(normalize_language_code("ja"), "jp");
    assert_eq!(normalize_language_code("jp"), "jp");
    assert_eq!(normalize_language_code("japanese"), "jp");
    assert_eq!(normalize_language_code("ko"), "kor");
    assert_eq!(normalize_language_code("kr"), "kor");
    assert_eq!(normalize_language_code("korean"), "kor");
    assert_eq!(normalize_language_code("fr"), "fra");
    assert_eq!(normalize_language_code("french"), "fra");
    assert_eq!(normalize_language_code("es"), "spa");
    assert_eq!(normalize_language_code("spanish"), "spa");
    assert_eq!(normalize_language_code("de"), "de");
    assert_eq!(normalize_language_code("german"), "de");
    assert_eq!(normalize_language_code("ru"), "ru");
    assert_eq!(normalize_language_code("russian"), "ru");
    assert_eq!(normalize_language_code("auto"), "auto");
}

#[test]
fn normalize_is_case_insensitive() {
    assert_eq!(normalize_language_code("ZH-CN"), "zh");
    assert_eq!(normalize_language_code("zh-cn"), "zh");
    assert_eq!(normalize_language_code("ZH-CN"), normalize_language_code("zh-cn"));
    assert_eq!(normalize_language_code("Japanese"), "jp");
    assert_eq!(normalize_language_code("KR"), "kor");
    assert_eq!(normalize_language_code("AUTO"), "auto");
}

#[test]
fn normalize_passes_unknown_codes_through() {
    assert_eq!(normalize_language_code("xx"), "xx");
    assert_eq!(normalize_language_code("PT-BR"), "PT-BR");
    assert_eq!(normalize_language_code(""), "");
    assert_eq!(normalize_language_code("kor"), "kor");
    assert_eq!(normalize_language_code("fra"), "fra");
}

#[test]
fn normalize_is_idempotent_on_samples() {
    let samples = [
        "zh", "ZH-CN", "chinese", "en", "Japanese", "jp", "KR", "korean", "fr", "es", "de", "ru",
        "auto", "xx", "PT-BR", "", "kor", "fra", "spa", "th",
    ];
    for s in samples {
        let once = normalize_language_code(s);
        let twice = normalize_language_code(&once);
        assert_eq!(once, twice);
    }
}
