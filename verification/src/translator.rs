use vstd::prelude::*;
use crate::error::TranslationError;

verus! {

/// The outcome of one successful translation, at the specification level.
pub struct SpecTranslation {
    pub source: Seq<char>,
    pub target: Seq<char>,
    pub from: Seq<char>,
    pub to: Seq<char>,
    pub detected_language: Option<Seq<char>>,
}

/// The outcome of one successful translation.
#[derive(Debug, Clone)]
pub struct TranslationResult {
    /// The original text, as echoed by the provider.
    pub source: String,
    /// The translated text.
    pub target: String,
    /// The requested source language code, possibly `auto`.
    pub from: String,
    /// The requested target language code.
    pub to: String,
    /// The language the provider detected; present only when `auto` was
    /// requested and the provider reported something other than `auto`.
    pub detected_language: Option<String>,
}

impl View for TranslationResult {
    type V = SpecTranslation;

    open spec fn view(&self) -> SpecTranslation {
        SpecTranslation {
            source: self.source@,
            target: self.target@,
            from: self.from@,
            to: self.to@,
            detected_language: match self.detected_language {
                Some(d) => Some(d@),
                None => None,
            },
        }
    }
}

/// A prepared provider request: the endpoint and the form fields to post.
#[derive(Debug)]
pub struct TranslationRequest {
    pub url: String,
    pub fields: Vec<(String, String)>,
}

/// The request at the specification level.
#[verifier::ext_equal]
pub struct SpecRequest {
    pub url: Seq<char>,
    pub fields: Seq<(Seq<char>, Seq<char>)>,
}

impl View for TranslationRequest {
    type V = SpecRequest;

    open spec fn view(&self) -> SpecRequest {
        SpecRequest {
            url: self.url@,
            fields: Seq::new(self.fields@.len(), |i: int| (self.fields@[i].0@, self.fields@[i].1@)),
        }
    }
}

/// The capability interface a translation provider offers. The network
/// round-trip itself is the caller's job: a provider turns plain inputs into
/// a request, and a raw response back into a result, and never performs I/O.
pub trait Translator {
    /// Builds the provider request for one text, or rejects blank input.
    fn prepare_request(&self, text: &str, from: &str, to: &str, salt: &str) -> Result<
        TranslationRequest,
        TranslationError,
    >;

    /// Turns the raw HTTP status and body into a result or a classified error.
    fn interpret_response(&self, status: u16, body: &str, from: &str, to: &str) -> Result<
        TranslationResult,
        TranslationError,
    >;

    /// The language codes the provider accepts, with display names.
    fn supported_languages(&self) -> Vec<(&'static str, &'static str)>;

    /// An identifier for diagnostics and the UI.
    fn name(&self) -> &'static str;
}

} // verus!
