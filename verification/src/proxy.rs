use vstd::prelude::*;

verus! {

/// Policy for routing outbound requests through an HTTP/HTTPS proxy.
#[derive(Clone, Copy, Debug, PartialEq, Eq, Structural)]
pub enum ProxyMode {
    /// Prefer the configured URL, fall back to the process environment.
    Auto,
    /// Force the proxy on; resolves the same way as `Auto`.
    Enable,
    /// Never use a proxy, whatever is configured or in the environment.
    Disable,
}

/// Proxy settings as read from the persisted configuration.
#[derive(Clone, Debug)]
pub struct ProxyConfig {
    pub enabled: ProxyMode,
    /// Configured HTTP proxy URL; when absent the environment is consulted.
    pub http_proxy: Option<String>,
    /// Configured HTTPS proxy URL; when absent the environment is consulted.
    pub https_proxy: Option<String>,
}

/// The pair of proxy URLs that a transport built from `c` must use, given the
/// values of the `http_proxy`/`https_proxy` environment variables.
pub open spec fn spec_effective_proxy(
    c: ProxyConfig,
    env_http: Option<String>,
    env_https: Option<String>,
) -> (Option<String>, Option<String>) {
    match c.enabled {
        ProxyMode::Disable => (None, None),
        _ => (
            if c.http_proxy is Some {
                c.http_proxy
            } else {
                env_http
            },
            if c.https_proxy is Some {
                c.https_proxy
            } else {
                env_https
            },
        ),
    }
}

impl ProxyConfig {
    /// Resolves the proxy URLs that outbound requests must use.
    ///
    /// The caller reads the `http_proxy`/`https_proxy` environment variables
    /// (lowercase variant first, then uppercase) and passes them in; this
    /// function is then a pure decision: `Disable` yields no proxy at all,
    /// while `Enable` and `Auto` prefer the configured URL over the
    /// environment, independently for each scheme.
    pub fn get_effective_proxy(
        &self,
        env_http: Option<String>,
        env_https: Option<String>,
    ) -> (r: (Option<String>, Option<String>))
        ensures
            r == spec_effective_proxy(*self, env_http, env_https),
    {
        match self.enabled {
            ProxyMode::Disable => (None, None),
            _ => {
                let http = match &self.http_proxy {
                    Some(u) => Some(u.clone()),
                    None => env_http,
                };
                let https = match &self.https_proxy {
                    Some(u) => Some(u.clone()),
                    None => env_https,
                };
                (http, https)
            },
        }
    }
}

impl Default for ProxyConfig {
    fn default() -> (r: Self)
        ensures
            r.enabled is Auto,
            r.http_proxy is None,
            r.https_proxy is None,
    {
        ProxyConfig { enabled: ProxyMode::Auto, http_proxy: None, https_proxy: None }
    }
}

impl ProxyMode {
    /// The mode named by an already-validated lowercase argument.
    pub fn from_name(s: &str) -> (r: Option<ProxyMode>)
        ensures
            r == (if s@ == "auto"@ {
                Some(ProxyMode::Auto)
            } else if s@ == "enable"@ {
                Some(ProxyMode::Enable)
            } else if s@ == "disable"@ {
                Some(ProxyMode::Disable)
            } else {
                None::<ProxyMode>
            }),
    {
        if crate::text::str_eq(s, "auto") {
            Some(ProxyMode::Auto)
        } else if crate::text::str_eq(s, "enable") {
            Some(ProxyMode::Enable)
        } else if crate::text::str_eq(s, "disable") {
            Some(ProxyMode::Disable)
        } else {
            None
        }
    }
}

/// The proxy mode a run actually uses: the command-line flags win over the
/// configured mode, and disabling wins over forcing.
pub fn apply_proxy_override(mode: ProxyMode, no_proxy: bool, force_proxy: bool) -> (r: ProxyMode)
    ensures
        r == (if no_proxy {
            ProxyMode::Disable
        } else if force_proxy {
            ProxyMode::Enable
        } else {
            mode
        }),
{
    if no_proxy {
        ProxyMode::Disable
    } else if force_proxy {
        ProxyMode::Enable
    } else {
        mode
    }
}

/// Disabling the proxy wins over everything: whatever URLs are configured and
/// whatever the environment holds, `Disable` mode resolves to no proxy.
pub proof fn lemma_disable_yields_no_proxy(
    c: ProxyConfig,
    env_http: Option<String>,
    env_https: Option<String>,
)
    requires
        c.enabled is Disable,
    ensures
        spec_effective_proxy(c, env_http, env_https) == (
            None::<String>,
            None::<String>,
        ),
{
}

/// `Enable` and `Auto` resolve identically: both prefer the configured URL
/// and fall back to the environment, so two configurations that differ only
/// in choosing between these two modes use the same proxies.
pub proof fn lemma_enable_and_auto_agree(
    c: ProxyConfig,
    d: ProxyConfig,
    env_http: Option<String>,
    env_https: Option<String>,
)
    requires
        c.http_proxy == d.http_proxy,
        c.https_proxy == d.https_proxy,
        c.enabled is Enable,
        d.enabled is Auto,
    ensures
        spec_effective_proxy(c, env_http, env_https) == spec_effective_proxy(
            d,
            env_http,
            env_https,
        ),
{
}

} // verus!
