use fanyi::cli::Cli;
use fanyi::config::{mask_string, Config, ConfigUpdate};
use fanyi::proxy::ProxyMode;

#[test]
fn default_configuration() {
    let c = Config::default();
    assert_eq!(c.translation.default_from, "zh");
    assert_eq!(c.translation.default_to, "en");
    assert_eq!(c.translation.provider, "baidu");
    assert_eq!(c.baidu.app_id, "");
    assert_eq!(c.baidu.secret_key, "");
    assert_eq!(c.baidu.api_url, "https://fanyi-api.baidu.com/api/trans/vip/translate");
    assert!(c.ui.enable_colors);
    assert!(c.ui.show_language_detection);
    assert_eq!(c.proxy.enabled, ProxyMode::Auto);
    assert_eq!(c.proxy.http_proxy, None);
    assert_eq!(c.proxy.https_proxy, None);
}

#[test]
fn validation_requires_both_credentials() {
    let mut c = Config::default();
    assert!(c.validate().is_err());
    c.baidu.app_id = String::from("id");
    assert!(c.validate().is_err());
    c.baidu.secret_key = String::from("key");
    assert!(c.validate().is_ok());
    c.baidu.app_id = String::new();
    let e = c.validate().unwrap_err();
    assert_eq!(
        e,
        "translation api credentials are not configured; run 'fanyi config' to set them"
    );
}

fn no_update() -> ConfigUpdate {
    ConfigUpdate {
        app_id: None,
        secret_key: None,
        default_from: None,
        default_to: None,
        proxy_mode: None,
        http_proxy: None,
        https_proxy: None,
    }
}

#[test]
fn updates_apply_field_by_field() {
    let mut c = Config::default();
    let updated = c.apply_updates(&ConfigUpdate {
        app_id: Some(String::from("id")),
        secret_key: Some(String::from("key")),
        default_from: Some(String::from("en")),
        default_to: Some(String::from("ja")),
        proxy_mode: Some(ProxyMode::Enable),
        http_proxy: Some(String::from("http://p")),
        https_proxy: None,
    });
    assert!(updated);
    assert_eq!(c.baidu.app_id, "id");
    assert_eq!(c.baidu.secret_key, "key");
    assert_eq!(c.translation.default_from, "en");
    assert_eq!(c.translation.default_to, "ja");
    assert_eq!(c.proxy.enabled, ProxyMode::Enable);
    assert_eq!(c.proxy.http_proxy, Some(String::from("http://p")));
    assert_eq!(c.proxy.https_proxy, None);
    assert_eq!(c.translation.provider, "baidu");
}

#[test]
fn empty_proxy_url_clears_the_setting() {
    let mut c = Config::default();
    c.proxy.http_proxy = Some(String::from("http://p"));
    let mut u = no_update();
    u.http_proxy = Some(String::new());
    assert!(c.apply_updates(&u));
    assert_eq!(c.proxy.http_proxy, None);
}

#[test]
fn no_given_fields_means_no_update() {
    let mut c = Config::default();
    assert!(!c.apply_updates(&no_update()));
    assert_eq!(c.baidu.app_id, "");
}

#[test]
fn masking_keeps_a_prefix_only() {
    assert_eq!(mask_string("abcdefgh", 4), "abcd***");
    assert_eq!(mask_string("abcd", 4), "****");
    assert_eq!(mask_string("abc", 4), "***");
    assert_eq!(mask_string("", 4), "");
    assert_eq!(mask_string("\u{4f60}\u{597d}\u{4e16}\u{754c}\u{4eba}", 4), "\u{4f60}\u{597d}\u{4e16}\u{754c}***");
}

#[test]
fn language_arguments_fall_back_to_defaults() {
    let cli = Cli {
        command: None,
        from: Some(String::from("ja")),
        to: None,
        text: None,
        no_color: false,
        no_proxy: false,
        force_proxy: false,
    };
    assert_eq!(cli.get_from_language("zh"), "ja");
    assert_eq!(cli.get_to_language("en"), "en");
}
