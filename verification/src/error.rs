use vstd::prelude::*;
use vstd::string::StringExecFns;
use crate::text::{str_eq, spec_dec, dec_u16};

verus! {

/// The error taxonomy, at the specification level.
pub enum SpecError {
    EmptyText,
    Transport { url: Seq<char>, detail: Seq<char> },
    Http { status: int, body: Seq<char> },
    Parse { raw_body: Seq<char> },
    Provider { code: Seq<char>, message: Seq<char> },
    EmptyResult,
}

/// Everything that can end one translation request. All of these are
/// terminal: the core never retries.
#[derive(Debug)]
pub enum TranslationError {
    /// The text to translate was empty or blank; no request was issued.
    EmptyText,
    /// The request got no HTTP response: network, DNS, timeout or TLS.
    Transport { url: String, detail: String },
    /// The provider answered outside the HTTP success range.
    Http { status: u16, body: String },
    /// The response body was not the provider's envelope.
    Parse { raw_body: String },
    /// The provider reported an error code of its own, despite HTTP success.
    Provider { code: String, message: String },
    /// A well-formed envelope with zero translations.
    EmptyResult,
}

impl View for TranslationError {
    type V = SpecError;

    open spec fn view(&self) -> SpecError {
        match self {
            TranslationError::EmptyText => SpecError::EmptyText,
            TranslationError::Transport { url, detail } => SpecError::Transport {
                url: url@,
                detail: detail@,
            },
            TranslationError::Http { status, body } => SpecError::Http {
                status: *status as int,
                body: body@,
            },
            TranslationError::Parse { raw_body } => SpecError::Parse { raw_body: raw_body@ },
            TranslationError::Provider { code, message } => SpecError::Provider {
                code: code@,
                message: message@,
            },
            TranslationError::EmptyResult => SpecError::EmptyResult,
        }
    }
}

/// The human-readable cause for a provider error code, resolved through the
/// provider's published table; matching is exact, and an unknown code keeps
/// its numeric form in a generic message.
pub open spec fn spec_error_cause(code: Seq<char>) -> Seq<char> {
    if code == "52001"@ {
        "request timed out, please retry"@
    } else if code == "52002"@ {
        "system error, please retry"@
    } else if code == "52003"@ {
        "unauthorized user: check your app id"@
    } else if code == "52004"@ {
        "required parameter missing: check the parameters"@
    } else if code == "52005"@ {
        "bad signature: check your secret key"@
    } else if code == "54000"@ {
        "required parameter missing"@
    } else if code == "54001"@ {
        "bad signature"@
    } else if code == "54003"@ {
        "rate limited: reduce the request frequency"@
    } else if code == "54004"@ {
        "insufficient account balance"@
    } else if code == "54005"@ {
        "long-query requests are rate limited"@
    } else if code == "58000"@ {
        "illegal client ip"@
    } else if code == "58001"@ {
        "translation language direction not supported"@
    } else if code == "58002"@ {
        "the translation service is currently disabled"@
    } else if code == "90107"@ {
        "authentication not passed or not yet effective"@
    } else {
        "unknown error: "@ + code
    }
}

/// Resolves a provider error code to its cause.
pub fn error_cause(code: &str) -> (r: String)
    ensures
        r@ == spec_error_cause(code@),
{
    if str_eq(code, "52001") {
        String::from_str("request timed out, please retry")
    } else if str_eq(code, "52002") {
        String::from_str("system error, please retry")
    } else if str_eq(code, "52003") {
        String::from_str("unauthorized user: check your app id")
    } else if str_eq(code, "52004") {
        String::from_str("required parameter missing: check the parameters")
    } else if str_eq(code, "52005") {
        String::from_str("bad signature: check your secret key")
    } else if str_eq(code, "54000") {
        String::from_str("required parameter missing")
    } else if str_eq(code, "54001") {
        String::from_str("bad signature")
    } else if str_eq(code, "54003") {
        String::from_str("rate limited: reduce the request frequency")
    } else if str_eq(code, "54004") {
        String::from_str("insufficient account balance")
    } else if str_eq(code, "54005") {
        String::from_str("long-query requests are rate limited")
    } else if str_eq(code, "58000") {
        String::from_str("illegal client ip")
    } else if str_eq(code, "58001") {
        String::from_str("translation language direction not supported")
    } else if str_eq(code, "58002") {
        String::from_str("the translation service is currently disabled")
    } else if str_eq(code, "90107") {
        String::from_str("authentication not passed or not yet effective")
    } else {
        String::from_str("unknown error: ").concat(code)
    }
}

/// The message shown to the user for each error.
pub open spec fn spec_error_message(e: SpecError) -> Seq<char> {
    match e {
        SpecError::EmptyText => "the text to translate must not be empty"@,
        SpecError::Transport { url, detail } => "failed to send the translation request to "@ + url
            + ": "@ + detail,
        SpecError::Http { status, body } => "http request failed: "@ + spec_dec(status as nat)
            + " - "@ + body,
        SpecError::Parse { raw_body } => "failed to parse the api response: "@ + raw_body,
        SpecError::Provider { code, message } => "translation api error ("@ + code + "): "@
            + message,
        SpecError::EmptyResult => "the translation result is empty"@,
    }
}

impl TranslationError {
    /// Renders the error for display.
    pub fn message(&self) -> (r: String)
        ensures
            r@ == spec_error_message(self@),
    {
        match self {
            TranslationError::EmptyText => String::from_str(
                "the text to translate must not be empty",
            ),
            TranslationError::Transport { url, detail } => String::from_str(
                "failed to send the translation request to ",
            ).concat(url.as_str()).concat(": ").concat(detail.as_str()),
            TranslationError::Http { status, body } => String::from_str("http request failed: ")
                .concat(dec_u16(*status).as_str()).concat(" - ").concat(body.as_str()),
            TranslationError::Parse { raw_body } => String::from_str(
                "failed to parse the api response: ",
            ).concat(raw_body.as_str()),
            TranslationError::Provider { code, message } => String::from_str(
                "translation api error (",
            ).concat(code.as_str()).concat("): ").concat(message.as_str()),
            TranslationError::EmptyResult => String::from_str("the translation result is empty"),
        }
    }
}

} // verus!
