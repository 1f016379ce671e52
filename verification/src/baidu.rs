use vstd::prelude::*;
use vstd::string::StringExecFns;
use crate::config::BaiduConfig;
use crate::error::{TranslationError, SpecError, spec_error_cause, error_cause};
use crate::json::{SpecEnvelope, parse_envelope, spec_envelope};
use crate::lang::{normalize_language_code, spec_normalize};
use crate::sign::{generate_sign, spec_sign};
use crate::text::{is_blank, spec_is_blank, str_eq};
use crate::translator::{
    SpecRequest,
    SpecTranslation,
    TranslationRequest,
    TranslationResult,
    Translator,
};

verus! {

/// The reference provider: builds signed requests for the provider's HTTP
/// endpoint and interprets its JSON envelope. It never performs I/O itself.
pub struct BaiduTranslator {
    pub config: BaiduConfig,
}

/// The request `prepare_request` owes the provider: the configured endpoint
/// and exactly the six form fields of the wire protocol, in this order.
pub open spec fn spec_prepare(
    cfg: BaiduConfig,
    text: Seq<char>,
    from: Seq<char>,
    to: Seq<char>,
    salt: Seq<char>,
) -> SpecRequest {
    SpecRequest {
        url: cfg.api_url@,
        fields: seq![
            ("q"@, text),
            ("from"@, spec_normalize(from)),
            ("to"@, spec_normalize(to)),
            ("appid"@, cfg.app_id@),
            ("salt"@, salt),
            ("sign"@, spec_sign(cfg.app_id@, text, salt, cfg.secret_key@)),
        ],
    }
}

/// What interpretation owes for every raw response: a status outside the
/// HTTP success range is an HTTP error with the body preserved; a body that
/// is not the provider's envelope is a parse error; an envelope carrying an
/// error code maps through the provider's error table; an envelope with no
/// translations is an empty result; otherwise the first translation is the
/// result, and a detected language is reported only when `auto` was
/// requested and the provider reported something else.
pub open spec fn spec_interpret(
    status: int,
    body: Seq<char>,
    req_from: Seq<char>,
    req_to: Seq<char>,
) -> Result<SpecTranslation, SpecError> {
    if !(200 <= status < 300) {
        Err(SpecError::Http { status, body })
    } else {
        match spec_envelope(body) {
            None => Err(SpecError::Parse { raw_body: body }),
            Some(env) => match env.error_code {
                Some(code) => Err(
                    SpecError::Provider { code, message: spec_error_cause(code) },
                ),
                None => if env.trans_result.len() == 0 {
                    Err(SpecError::EmptyResult)
                } else {
                    Ok(
                        SpecTranslation {
                            source: env.trans_result[0].src,
                            target: env.trans_result[0].dst,
                            from: req_from,
                            to: req_to,
                            detected_language: if req_from == "auto"@ && env.from != "auto"@ {
                                Some(env.from)
                            } else {
                                None
                            },
                        },
                    )
                },
            },
        }
    }
}

impl BaiduTranslator {
    /// A provider bound to one set of credentials.
    pub fn new(config: BaiduConfig) -> (r: Self)
        ensures
            r.config == config,
    {
        BaiduTranslator { config }
    }

    /// Maps a user-facing language alias to the provider's code.
    pub fn map_language_code(&self, lang: &str) -> (r: String)
        ensures
            r@ == spec_normalize(lang@),
    {
        normalize_language_code(lang)
    }

    /// The request signature over this provider's credentials: 32 lowercase
    /// hexadecimal digits.
    pub fn generate_sign(&self, query: &str, salt: &str) -> (r: String)
        ensures
            r@ == spec_sign(self.config.app_id@, query@, salt@, self.config.secret_key@),
            r@.len() == 32,
    {
        generate_sign(
            self.config.app_id.as_str(),
            query,
            salt,
            self.config.secret_key.as_str(),
        )
    }

    /// The cause for a provider error code.
    pub fn handle_api_error(&self, error_code: &str) -> (r: String)
        ensures
            r@ == spec_error_cause(error_code@),
    {
        error_cause(error_code)
    }

    /// Builds the signed form request for one text, given a fresh salt, or
    /// rejects blank text before any network activity.
    pub fn prepare_request(&self, text: &str, from: &str, to: &str, salt: &str) -> (r: Result<
        TranslationRequest,
        TranslationError,
    >)
        ensures
            match r {
                Ok(req) => !spec_is_blank(text@) && req@ == spec_prepare(
                    self.config,
                    text@,
                    from@,
                    to@,
                    salt@,
                ),
                Err(e) => spec_is_blank(text@) && e@ is EmptyText,
            },
    {
        if is_blank(text) {
            return Err(TranslationError::EmptyText);
        }
        let from_lang = normalize_language_code(from);
        let to_lang = normalize_language_code(to);
        let sign = self.generate_sign(text, salt);
        let mut fields: Vec<(String, String)> = Vec::new();
        fields.push((String::from_str("q"), text.to_owned()));
        fields.push((String::from_str("from"), from_lang));
        fields.push((String::from_str("to"), to_lang));
        fields.push((String::from_str("appid"), self.config.app_id.clone()));
        fields.push((String::from_str("salt"), salt.to_owned()));
        fields.push((String::from_str("sign"), sign));
        let req = TranslationRequest { url: self.config.api_url.clone(), fields };
        proof {
            assert(req@ =~= spec_prepare(self.config, text@, from@, to@, salt@));
        }
        Ok(req)
    }

    /// Classifies one raw HTTP response into a translation or an error.
    pub fn interpret_response(&self, status: u16, body: &str, from: &str, to: &str) -> (r: Result<
        TranslationResult,
        TranslationError,
    >)
        ensures
            match r {
                Ok(t) => spec_interpret(status as int, body@, from@, to@) == Ok::<
                    SpecTranslation,
                    SpecError,
                >(t@),
                Err(e) => spec_interpret(status as int, body@, from@, to@) == Err::<
                    SpecTranslation,
                    SpecError,
                >(e@),
            },
    {
        if !(200 <= status && status < 300) {
            return Err(TranslationError::Http { status, body: body.to_owned() });
        }
        match parse_envelope(body) {
            None => Err(TranslationError::Parse { raw_body: body.to_owned() }),
            Some(env) => {
                match env.error_code {
                    Some(code) => {
                        let message = error_cause(code.as_str());
                        Err(TranslationError::Provider { code, message })
                    },
                    None => {
                        if env.trans_result.len() == 0 {
                            Err(TranslationError::EmptyResult)
                        } else {
                            let detected = if str_eq(from, "auto") && !str_eq(
                                env.from.as_str(),
                                "auto",
                            ) {
                                Some(env.from.clone())
                            } else {
                                None
                            };
                            let first = &env.trans_result[0];
                            Ok(
                                TranslationResult {
                                    source: first.src.clone(),
                                    target: first.dst.clone(),
                                    from: from.to_owned(),
                                    to: to.to_owned(),
                                    detected_language: detected,
                                },
                            )
                        }
                    },
                }
            },
        }
    }
}

/// The envelope alone decides an empty result: whenever a successful,
/// well-formed response carries no provider error code and no translations,
/// interpretation ends in the empty-result error, whatever the other fields
/// hold. (A provider error code takes precedence over the emptiness check.)
pub proof fn lemma_empty_result_rejected(
    status: int,
    body: Seq<char>,
    req_from: Seq<char>,
    req_to: Seq<char>,
    env: SpecEnvelope,
)
    requires
        200 <= status < 300,
        spec_envelope(body) == Some(env),
        env.error_code is None,
        env.trans_result.len() == 0,
    ensures
        spec_interpret(status, body, req_from, req_to) == Err::<SpecTranslation, SpecError>(
            SpecError::EmptyResult,
        ),
{
}

/// Interpretation never fabricates a detected language: whenever the
/// requested source language is not `auto`, a successful interpretation
/// reports no detected language.
pub proof fn lemma_no_fabricated_detection(
    status: int,
    body: Seq<char>,
    req_from: Seq<char>,
    req_to: Seq<char>,
    t: SpecTranslation,
)
    requires
        spec_interpret(status, body, req_from, req_to) == Ok::<SpecTranslation, SpecError>(t),
        req_from != "auto"@,
    ensures
        t.detected_language is None,
{
}

/// The language codes the provider accepts, first the automatic-detection
/// pseudo-code, then the concrete languages.
pub open spec fn spec_supported_languages() -> Seq<(Seq<char>, Seq<char>)> {
    seq![
        ("auto"@, "auto detect"@),
        ("zh"@, "chinese"@),
        ("en"@, "english"@),
        ("jp"@, "japanese"@),
        ("kor"@, "korean"@),
        ("fra"@, "french"@),
        ("spa"@, "spanish"@),
        ("de"@, "german"@),
        ("ru"@, "russian"@),
        ("th"@, "thai"@),
        ("ara"@, "arabic"@),
        ("it"@, "italian"@),
        ("pt"@, "portuguese"@),
        ("el"@, "greek"@),
        ("nl"@, "dutch"@),
        ("pl"@, "polish"@),
        ("bul"@, "bulgarian"@),
        ("est"@, "estonian"@),
        ("dan"@, "danish"@),
        ("fin"@, "finnish"@),
        ("cs"@, "czech"@),
        ("rom"@, "romanian"@),
        ("slo"@, "slovenian"@),
        ("swe"@, "swedish"@),
        ("hu"@, "hungarian"@),
        ("vie"@, "vietnamese"@),
    ]
}

impl BaiduTranslator {
    /// The language codes this provider accepts, with display names, in the
    /// provider's order.
    pub fn supported_languages(&self) -> (r: Vec<(&'static str, &'static str)>)
        ensures
            r@.len() == spec_supported_languages().len(),
            forall|i: int|
                0 <= i < r@.len() ==> r@[i].0@ == spec_supported_languages()[i].0 && r@[i].1@
                    == spec_supported_languages()[i].1,
    {
        let mut v: Vec<(&'static str, &'static str)> = Vec::new();
        v.push(("auto", "auto detect"));
        v.push(("zh", "chinese"));
        v.push(("en", "english"));
        v.push(("jp", "japanese"));
        v.push(("kor", "korean"));
        v.push(("fra", "french"));
        v.push(("spa", "spanish"));
        v.push(("de", "german"));
        v.push(("ru", "russian"));
        v.push(("th", "thai"));
        v.push(("ara", "arabic"));
        v.push(("it", "italian"));
        v.push(("pt", "portuguese"));
        v.push(("el", "greek"));
        v.push(("nl", "dutch"));
        v.push(("pl", "polish"));
        v.push(("bul", "bulgarian"));
        v.push(("est", "estonian"));
        v.push(("dan", "danish"));
        v.push(("fin", "finnish"));
        v.push(("cs", "czech"));
        v.push(("rom", "romanian"));
        v.push(("slo", "slovenian"));
        v.push(("swe", "swedish"));
        v.push(("hu", "hungarian"));
        v.push(("vie", "vietnamese"));
        v
    }

    /// The provider's identifier for diagnostics and the UI.
    pub fn name(&self) -> (r: &'static str)
        ensures
            r@ == "Baidu Translate"@,
    {
        "Baidu Translate"
    }
}

impl Translator for BaiduTranslator {
    fn prepare_request(&self, text: &str, from: &str, to: &str, salt: &str) -> Result<
        TranslationRequest,
        TranslationError,
    > {
        BaiduTranslator::prepare_request(self, text, from, to, salt)
    }

    fn interpret_response(&self, status: u16, body: &str, from: &str, to: &str) -> Result<
        TranslationResult,
        TranslationError,
    > {
        BaiduTranslator::interpret_response(self, status, body, from, to)
    }

    fn supported_languages(&self) -> Vec<(&'static str, &'static str)> {
        BaiduTranslator::supported_languages(self)
    }

    fn name(&self) -> &'static str {
        BaiduTranslator::name(self)
    }
}

} // verus!
