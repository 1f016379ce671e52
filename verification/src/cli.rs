use vstd::prelude::*;
use vstd::string::StringExecFns;
use crate::text::{spec_lower, str_eq_lower};

verus! {

/// Command-line arguments, as plain values. The surrounding application
/// parses the actual command line and fills this in.
pub struct Cli {
    pub command: Option<Commands>,
    /// Source language; falls back to the configured default.
    pub from: Option<String>,
    /// Target language; falls back to the configured default.
    pub to: Option<String>,
    /// Text to translate; when absent the application reads it elsewhere.
    pub text: Option<String>,
    /// Disable colored output.
    pub no_color: bool,
    /// Disable the proxy, whatever configuration and environment say.
    pub no_proxy: bool,
    /// Force the proxy on even when configured off.
    pub force_proxy: bool,
}

/// Subcommands of the tool.
pub enum Commands {
    /// Update or show the persisted configuration.
    Config {
        app_id: Option<String>,
        secret_key: Option<String>,
        default_from: Option<String>,
        default_to: Option<String>,
        proxy_mode: Option<String>,
        http_proxy: Option<String>,
        https_proxy: Option<String>,
        show: bool,
    },
    /// List the supported languages.
    Languages,
    /// Show proxy status and the relevant environment variables.
    ProxyStatus,
}

impl Cli {
    /// The source language: the command-line value when given, else the default.
    pub fn get_from_language(&self, default: &str) -> (r: String)
        ensures
            r@ == match self.from {
                Some(f) => f@,
                None => default@,
            },
    {
        match &self.from {
            Some(f) => f.clone(),
            None => default.to_owned(),
        }
    }

    /// The target language: the command-line value when given, else the default.
    pub fn get_to_language(&self, default: &str) -> (r: String)
        ensures
            r@ == match self.to {
                Some(t) => t@,
                None => default@,
            },
    {
        match &self.to {
            Some(t) => t.clone(),
            None => default.to_owned(),
        }
    }
}

/// Validates a proxy-mode argument, case-insensitively. Accepted values are
/// `auto`, `enable` and `disable`; the accepted value is returned lowercased,
/// anything else is rejected with a usage message.
pub fn parse_proxy_mode(s: &str) -> (r: Result<String, String>)
    ensures
        match r {
            Ok(m) => m@ == spec_lower(s@) && (m@ == "auto"@ || m@ == "enable"@ || m@
                == "disable"@),
            Err(e) => spec_lower(s@) != "auto"@ && spec_lower(s@) != "enable"@ && spec_lower(s@)
                != "disable"@ && e@ == "proxy mode must be one of auto, enable or disable"@,
        },
{
    if str_eq_lower(s, "auto") {
        Ok(String::from_str("auto"))
    } else if str_eq_lower(s, "enable") {
        Ok(String::from_str("enable"))
    } else if str_eq_lower(s, "disable") {
        Ok(String::from_str("disable"))
    } else {
        Err(String::from_str("proxy mode must be one of auto, enable or disable"))
    }
}

} // verus!
