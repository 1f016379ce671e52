use vstd::prelude::*;
use vstd::string::StrSliceExecFns;
use vstd::string::StringExecFns;
use crate::proxy::{ProxyConfig, ProxyMode};

verus! {

/// The resolved configuration record the application hands to the core.
#[derive(Debug, Clone)]
pub struct Config {
    pub translation: TranslationConfig,
    pub baidu: BaiduConfig,
    pub ui: UiConfig,
    pub proxy: ProxyConfig,
}

#[derive(Debug, Clone)]
pub struct TranslationConfig {
    pub default_from: String,
    pub default_to: String,
    pub provider: String,
}

/// Provider credentials and endpoint. Opaque strings; shown to the user only
/// in masked form.
#[derive(Debug, Clone)]
pub struct BaiduConfig {
    pub app_id: String,
    pub secret_key: String,
    pub api_url: String,
}

#[derive(Debug, Clone)]
pub struct UiConfig {
    pub enable_colors: bool,
    pub show_language_detection: bool,
}

impl Default for BaiduConfig {
    fn default() -> (r: Self)
        ensures
            r.app_id@ == Seq::<char>::empty(),
            r.secret_key@ == Seq::<char>::empty(),
            r.api_url@ == "https://fanyi-api.baidu.com/api/trans/vip/translate"@,
    {
        BaiduConfig {
            app_id: String::new(),
            secret_key: String::new(),
            api_url: String::from_str("https://fanyi-api.baidu.com/api/trans/vip/translate"),
        }
    }
}

impl Default for Config {
    fn default() -> (r: Self)
        ensures
            r.translation.default_from@ == "zh"@,
            r.translation.default_to@ == "en"@,
            r.translation.provider@ == "baidu"@,
            r.baidu.app_id@ == Seq::<char>::empty(),
            r.baidu.secret_key@ == Seq::<char>::empty(),
            r.baidu.api_url@ == "https://fanyi-api.baidu.com/api/trans/vip/translate"@,
            r.ui.enable_colors,
            r.ui.show_language_detection,
            r.proxy.enabled is Auto,
            r.proxy.http_proxy is None,
            r.proxy.https_proxy is None,
    {
        Config {
            translation: TranslationConfig {
                default_from: String::from_str("zh"),
                default_to: String::from_str("en"),
                provider: String::from_str("baidu"),
            },
            baidu: BaiduConfig::default(),
            ui: UiConfig { enable_colors: true, show_language_detection: true },
            proxy: ProxyConfig { enabled: ProxyMode::Auto, http_proxy: None, https_proxy: None },
        }
    }
}

/// One batch of configuration changes, as given on the command line. A field
/// left `None` keeps its current value.
pub struct ConfigUpdate {
    pub app_id: Option<String>,
    pub secret_key: Option<String>,
    pub default_from: Option<String>,
    pub default_to: Option<String>,
    pub proxy_mode: Option<ProxyMode>,
    /// An empty string clears the configured HTTP proxy URL.
    pub http_proxy: Option<String>,
    /// An empty string clears the configured HTTPS proxy URL.
    pub https_proxy: Option<String>,
}

impl ConfigUpdate {
    pub open spec fn any_set(&self) -> bool {
        self.app_id is Some || self.secret_key is Some || self.default_from is Some
            || self.default_to is Some || self.proxy_mode is Some || self.http_proxy is Some
            || self.https_proxy is Some
    }
}

impl Config {
    /// The credentials are usable only when both the application id and the
    /// secret key are set; otherwise the user is told how to configure them.
    pub fn validate(&self) -> (r: Result<(), String>)
        ensures
            match r {
                Ok(_) => self.baidu.app_id@.len() > 0 && self.baidu.secret_key@.len() > 0,
                Err(m) => (self.baidu.app_id@.len() == 0 || self.baidu.secret_key@.len() == 0)
                    && m@ == "translation api credentials are not configured; run 'fanyi config' to set them"@,
            },
    {
        if self.baidu.app_id.as_str().is_empty() || self.baidu.secret_key.as_str().is_empty() {
            Err(
                String::from_str(
                    "translation api credentials are not configured; run 'fanyi config' to set them",
                ),
            )
        } else {
            Ok(())
        }
    }

    /// Applies one batch of command-line updates; returns whether anything
    /// was given at all. Given proxy URLs that are empty strings clear the
    /// stored URL; all untouched fields keep their values.
    pub fn apply_updates(&mut self, u: &ConfigUpdate) -> (updated: bool)
        ensures
            updated == u.any_set(),
            final(self).baidu.app_id == match u.app_id {
                Some(v) => v,
                None => old(self).baidu.app_id,
            },
            final(self).baidu.secret_key == match u.secret_key {
                Some(v) => v,
                None => old(self).baidu.secret_key,
            },
            final(self).baidu.api_url == old(self).baidu.api_url,
            final(self).translation.default_from == match u.default_from {
                Some(v) => v,
                None => old(self).translation.default_from,
            },
            final(self).translation.default_to == match u.default_to {
                Some(v) => v,
                None => old(self).translation.default_to,
            },
            final(self).translation.provider == old(self).translation.provider,
            final(self).proxy.enabled == match u.proxy_mode {
                Some(m) => m,
                None => old(self).proxy.enabled,
            },
            final(self).proxy.http_proxy == match u.http_proxy {
                Some(p) => if p@.len() == 0 {
                    None::<String>
                } else {
                    Some(p)
                },
                None => old(self).proxy.http_proxy,
            },
            final(self).proxy.https_proxy == match u.https_proxy {
                Some(p) => if p@.len() == 0 {
                    None::<String>
                } else {
                    Some(p)
                },
                None => old(self).proxy.https_proxy,
            },
            final(self).ui == old(self).ui,
    {
        let mut updated = false;
        if let Some(v) = &u.app_id {
            self.baidu.app_id = v.clone();
            updated = true;
        }
        if let Some(v) = &u.secret_key {
            self.baidu.secret_key = v.clone();
            updated = true;
        }
        if let Some(v) = &u.default_from {
            self.translation.default_from = v.clone();
            updated = true;
        }
        if let Some(v) = &u.default_to {
            self.translation.default_to = v.clone();
            updated = true;
        }
        if let Some(m) = &u.proxy_mode {
            self.proxy.enabled = *m;
            updated = true;
        }
        if let Some(p) = &u.http_proxy {
            self.proxy.http_proxy = if p.as_str().is_empty() {
                None
            } else {
                Some(p.clone())
            };
            updated = true;
        }
        if let Some(p) = &u.https_proxy {
            self.proxy.https_proxy = if p.as_str().is_empty() {
                None
            } else {
                Some(p.clone())
            };
            updated = true;
        }
        updated
    }
}

/// Masks a secret for display: the first `show_chars` characters are kept and
/// the rest is replaced by a redaction marker; a secret no longer than
/// `show_chars` is fully starred out.
pub fn mask_string(s: &str, show_chars: usize) -> (r: String)
    ensures
        s@.len() <= show_chars ==> r@ == Seq::new(s@.len(), |i: int| '*'),
        s@.len() > show_chars ==> r@ == s@.subrange(0, show_chars as int) + "***"@,
{
    let n = s.unicode_len();
    if n <= show_chars {
        let mut r = String::new();
        let mut i: usize = 0;
        proof {
            reveal_strlit("*");
        }
        while i < n
            invariant
                i <= n,
                r@ =~= Seq::new(i as nat, |j: int| '*'),
                "*"@ =~= seq!['*'],
            decreases n - i,
        {
            r.append("*");
            i += 1;
            proof {
                assert(r@ =~= Seq::new(i as nat, |j: int| '*'));
            }
        }
        proof {
            assert(r@ =~= Seq::new(s@.len(), |i: int| '*'));
        }
        r
    } else {
        let kept = s.substring_char(0, show_chars);
        kept.to_owned().concat("***")
    }
}

} // verus!
