//! The client side of the model's HTTP interface: what is sent, where it is
//! sent, and the errors a call can end in.
//!
//! Nothing here touches the network. A transport outside this library
//! performs each attempt and hands back what happened.

use vstd::prelude::*;
use vstd::string::*;

use crate::data_models::{Analysis, Verification, VerificationResult};
use crate::text::{
    contains_str, decimal, has_substring, lemma_substring_of_concat, occurs_at, push_decimal,
    string_of_range, to_chars, trailing_cut, without_trailing,
};

verus! {


/// What the client needs to know to reach the model.
#[derive(Debug)]
pub struct LlmConfig {
    pub api_key: String,
    pub api_base_url: String,
    pub model_name: String,
    pub request_timeout_seconds: u64,
    pub max_retries: u32,
    pub max_output_tokens: u32,
}

impl LlmConfig {
    /// A request must be given some time to finish.
    pub open spec fn well_formed(&self) -> bool {
        self.request_timeout_seconds > 0
    }

    /// Whether a request is given some time to finish.
    pub fn is_well_formed(&self) -> (r: bool)
        ensures
            r == self.well_formed(),
    {
        self.request_timeout_seconds > 0
    }
}

impl Clone for LlmConfig {
    fn clone(&self) -> (r: Self)
        ensures
            r == *self,
    {
        LlmConfig {
            api_key: self.api_key.clone(),
            api_base_url: self.api_base_url.clone(),
            model_name: self.model_name.clone(),
            request_timeout_seconds: self.request_timeout_seconds,
            max_retries: self.max_retries,
            max_output_tokens: self.max_output_tokens,
        }
    }
}

// ---------------------------------------------------------------------
// Requests
// ---------------------------------------------------------------------

/// The MIME type under which an image is sent.
pub const IMAGE_MIME_TYPE: &'static str = "image/png";

/// What stands between a verification prompt and the formula to evaluate.
pub const LATEX_TO_EVALUATE: &'static str = "\n\nLaTeX to evaluate: ";

/// What a structured verification prompt says before the note on the output language.
pub const STRUCTURED_VERIFICATION_INSTRUCTIONS: &'static str = "You are a strict verifier. Compare the provided LaTeX with the image. Do NOT fix the LaTeX; only point out mismatches. Return a strict JSON: {\n  \"status\": \"error|warning|ok\",\n  \"issues\": [{\"category\": \"missing_term|extra_term|symbol_mismatch|notation_mismatch|layout_mismatch|other\", \"message\": \"...\"}],\n  \"coverage\": {\"symbols_matched\": n, \"symbols_total\": n, \"terms_matched\": n, \"terms_total\": n}\n}.\nRules:\n- status=error if ANY mismatch that changes math meaning (missing/extra term, wrong symbol, wrong power/subscript, different operator).\n- status=warning for layout/formatting-only differences (line breaks, spacing) that do not change math.\n- status=ok only if visually and semantically equivalent.\n- Be concise but precise.\n";

/// The note on the output language of a structured verification, Simplified Chinese.
pub const STRUCTURED_VERIFICATION_CHINESE: &'static str =
    "Output language: Simplified Chinese for 'issues[*].message'. Keys remain English.";

/// The note on the output language of a structured verification, English.
pub const STRUCTURED_VERIFICATION_ENGLISH: &'static str =
    "Output language: English for 'issues[*].message'. Keys remain English.";

/// What stands between the language note and the formula to verify.
pub const LATEX_TO_VERIFY: &'static str = "\nLaTeX to verify:\n";

/// One part of the content of a request.
#[derive(Debug)]
pub enum RequestPart {
    Text { text: String },
    InlineData { mime_type: String, data: String },
}

/// What a `RequestPart` holds, with every text as a sequence of characters.
pub enum RequestPartView {
    Text { text: Seq<char> },
    InlineData { mime_type: Seq<char>, data: Seq<char> },
}

impl View for RequestPart {
    type V = RequestPartView;

    open spec fn view(&self) -> RequestPartView {
        match self {
            RequestPart::Text { text } => RequestPartView::Text { text: text@ },
            RequestPart::InlineData { mime_type, data } => RequestPartView::InlineData {
                mime_type: mime_type@,
                data: data@,
            },
        }
    }
}

/// One request to the model: the parts of its content in order, the sampling
/// temperature in tenths, and the most tokens the model may answer with.
#[derive(Debug)]
pub struct GenerationRequest {
    pub parts: Vec<RequestPart>,
    pub temperature_tenths: u8,
    pub max_output_tokens: u32,
}

/// What a `GenerationRequest` holds, with every text as a sequence of characters.
pub struct GenerationRequestView {
    pub parts: Seq<RequestPartView>,
    pub temperature_tenths: u8,
    pub max_output_tokens: u32,
}

impl View for GenerationRequest {
    type V = GenerationRequestView;

    open spec fn view(&self) -> GenerationRequestView {
        GenerationRequestView {
            parts: self.parts@.map_values(|p: RequestPart| p@),
            temperature_tenths: self.temperature_tenths,
            max_output_tokens: self.max_output_tokens,
        }
    }
}

/// A request that holds a text and nothing else.
pub open spec fn text_request(text: Seq<char>, temperature_tenths: u8, max_output_tokens: u32)
    -> GenerationRequestView {
    GenerationRequestView {
        parts: seq![RequestPartView::Text { text }],
        temperature_tenths,
        max_output_tokens,
    }
}

/// A request that holds a text and then a PNG image in base64.
pub open spec fn image_request(
    text: Seq<char>,
    image_base64: Seq<char>,
    temperature_tenths: u8,
    max_output_tokens: u32,
) -> GenerationRequestView {
    GenerationRequestView {
        parts: seq![
            RequestPartView::Text { text },
            RequestPartView::InlineData { mime_type: IMAGE_MIME_TYPE@, data: image_base64 },
        ],
        temperature_tenths,
        max_output_tokens,
    }
}

/// A verification prompt followed by the formula it is to evaluate.
pub open spec fn evaluation_text(prompt: Seq<char>, latex: Seq<char>) -> Seq<char> {
    prompt + LATEX_TO_EVALUATE@ + latex
}

/// The prompt of a structured verification of `latex`, answered in the
/// language that `language` names.
pub open spec fn structured_verification_text(latex: Seq<char>, language: Seq<char>) -> Seq<
    char,
> {
    STRUCTURED_VERIFICATION_INSTRUCTIONS@ + (if language == "zh-CN"@ {
        STRUCTURED_VERIFICATION_CHINESE@
    } else {
        STRUCTURED_VERIFICATION_ENGLISH@
    }) + LATEX_TO_VERIFY@ + latex
}

fn make_text_request(text: String, temperature_tenths: u8, max_output_tokens: u32) -> (r:
    GenerationRequest)
    ensures
        r@ == text_request(text@, temperature_tenths, max_output_tokens),
{
    let mut parts: Vec<RequestPart> = Vec::new();
    parts.push(RequestPart::Text { text });
    let r = GenerationRequest { parts, temperature_tenths, max_output_tokens };
    assert(r@.parts =~= text_request(text@, temperature_tenths, max_output_tokens).parts);
    r
}

fn make_image_request(
    text: String,
    image_base64: &str,
    temperature_tenths: u8,
    max_output_tokens: u32,
) -> (r: GenerationRequest)
    ensures
        r@ == image_request(text@, image_base64@, temperature_tenths, max_output_tokens),
{
    let mut parts: Vec<RequestPart> = Vec::new();
    parts.push(RequestPart::Text { text });
    parts.push(
        RequestPart::InlineData {
            mime_type: String::from_str(IMAGE_MIME_TYPE),
            data: String::from_str(image_base64),
        },
    );
    let r = GenerationRequest { parts, temperature_tenths, max_output_tokens };
    assert(r@.parts =~= image_request(
        text@,
        image_base64@,
        temperature_tenths,
        max_output_tokens,
    ).parts);
    r
}

// ---------------------------------------------------------------------
// The address of the model
// ---------------------------------------------------------------------

/// The base address brought to a path that holds `/models`: trailing slashes
/// are cut off; an address that names no version gets `/v1beta`; one that
/// names no `models` segment gets one.
pub open spec fn models_base(api_base_url: Seq<char>) -> Seq<char> {
    let b = without_trailing(api_base_url, '/');
    if has_substring(b, "/models"@) {
        b
    } else if has_substring(b, "/v1beta"@) || has_substring(b, "/v1"@) {
        b + "/models"@
    } else {
        b + "/v1beta/models"@
    }
}

/// The address a request is sent to: the models base, the model's name, the
/// method, and the API key as a query parameter where there is a key.
pub open spec fn endpoint(config: LlmConfig) -> Seq<char> {
    let path = models_base(config.api_base_url@) + "/"@ + config.model_name@
        + ":generateContent"@;
    if config.api_key@.len() == 0 {
        path
    } else {
        path + "?key="@ + config.api_key@
    }
}

/// The models base of every address holds a `/models` segment.
pub proof fn lemma_models_base_names_models(api_base_url: Seq<char>)
    ensures
        has_substring(models_base(api_base_url), "/models"@),
{
    reveal_strlit("/models");
    reveal_strlit("/v1beta/models");
    let b = without_trailing(api_base_url, '/');
    let m = "/models"@;
    if has_substring(b, m) {
    } else if has_substring(b, "/v1beta"@) || has_substring(b, "/v1"@) {
        assert(occurs_at(m, m, 0)) by {
            assert(m.subrange(0, m.len() as int) =~= m);
        }
        lemma_substring_of_concat(b, m, Seq::empty(), m);
        assert(b + m + Seq::<char>::empty() =~= b + m);
    } else {
        let tail = "/v1beta/models"@;
        assert(occurs_at(tail, m, 7)) by {
            assert(tail.subrange(7, 14) =~= m);
        }
        lemma_substring_of_concat(b, tail, Seq::empty(), m);
        assert(b + tail + Seq::<char>::empty() =~= b + tail);
    }
}

/// The client of the model: it knows the configuration and derives from it
/// every request and the address to send it to.
#[derive(Debug)]
pub struct ApiClient {
    pub config: LlmConfig,
}

impl ApiClient {
    /// A client for a configuration.
    pub fn new(config: LlmConfig) -> (r: ApiClient)
        ensures
            r.config == config,
    {
        ApiClient { config }
    }

    /// The base address brought to a path that holds `/models`.
    pub fn canonical_models_base(&self) -> (r: String)
        ensures
            r@ == models_base(self.config.api_base_url@),
            has_substring(r@, "/models"@),
    {
        proof {
            lemma_models_base_names_models(self.config.api_base_url@);
        }
        let url = to_chars(self.config.api_base_url.as_str());
        let n = trailing_cut(&url, '/');
        let mut b = string_of_range(&url, 0, n);
        let chars = to_chars(b.as_str());
        if contains_str(&chars, "/models") {
            b
        } else if contains_str(&chars, "/v1beta") || contains_str(&chars, "/v1") {
            b.append("/models");
            b
        } else {
            b.append("/v1beta/models");
            b
        }
    }

    /// The address a request is sent to.
    pub fn request_url(&self) -> (r: String)
        ensures
            r@ == endpoint(self.config),
    {
        let mut url = self.canonical_models_base();
        url.append("/");
        url.append(self.config.model_name.as_str());
        url.append(":generateContent");
        if !self.config.api_key.as_str().is_empty() {
            url.append("?key=");
            url.append(self.config.api_key.as_str());
        }
        url
    }

    /// The request of the extraction stage: the prompt and the image.
    pub fn extraction_request(&self, prompt: &str, image_base64: &str) -> (r: GenerationRequest)
        ensures
            r@ == image_request(prompt@, image_base64@, 2, self.config.max_output_tokens),
    {
        make_image_request(
            String::from_str(prompt),
            image_base64,
            2,
            self.config.max_output_tokens,
        )
    }

    /// The request of the analysis stage: the prompt and the image.
    pub fn analysis_request(&self, prompt: &str, image_base64: &str) -> (r: GenerationRequest)
        ensures
            r@ == image_request(prompt@, image_base64@, 5, self.config.max_output_tokens),
    {
        make_image_request(
            String::from_str(prompt),
            image_base64,
            5,
            self.config.max_output_tokens,
        )
    }

    /// The request of a verification from the formula alone.
    pub fn verification_request(&self, prompt: &str, latex: &str) -> (r: GenerationRequest)
        ensures
            r@ == text_request(evaluation_text(prompt@, latex@), 2, self.config.max_output_tokens),
    {
        let mut text = String::from_str(prompt);
        text.append(LATEX_TO_EVALUATE);
        text.append(latex);
        make_text_request(text, 2, self.config.max_output_tokens)
    }

    /// The request of the verification stage: the prompt with the formula,
    /// and the image.
    pub fn verification_request_with_image(
        &self,
        prompt: &str,
        latex: &str,
        image_base64: &str,
    ) -> (r: GenerationRequest)
        ensures
            r@ == image_request(
                evaluation_text(prompt@, latex@),
                image_base64@,
                2,
                self.config.max_output_tokens,
            ),
    {
        let mut text = String::from_str(prompt);
        text.append(LATEX_TO_EVALUATE);
        text.append(latex);
        make_image_request(text, image_base64, 2, self.config.max_output_tokens)
    }

    /// The prompt of a structured verification.
    pub fn build_verification_prompt(latex: &str, language: &str) -> (r: String)
        ensures
            r@ == structured_verification_text(latex@, language@),
    {
        let mut text = String::from_str(STRUCTURED_VERIFICATION_INSTRUCTIONS);
        if crate::text::str_eq(language, "zh-CN") {
            text.append(STRUCTURED_VERIFICATION_CHINESE);
        } else {
            text.append(STRUCTURED_VERIFICATION_ENGLISH);
        }
        text.append(LATEX_TO_VERIFY);
        text.append(latex);
        text
    }

    /// The request of a structured verification of a formula against its image.
    pub fn structured_verification_request(
        &self,
        latex: &str,
        image_base64: &str,
        language: &str,
    ) -> (r: GenerationRequest)
        ensures
            r@ == image_request(
                structured_verification_text(latex@, language@),
                image_base64@,
                2,
                self.config.max_output_tokens,
            ),
    {
        let text = Self::build_verification_prompt(latex, language);
        make_image_request(text, image_base64, 2, self.config.max_output_tokens)
    }

    /// The request of a free generation from a prompt.
    pub fn content_request(&self, prompt: &str) -> (r: GenerationRequest)
        ensures
            r@ == text_request(prompt@, 7, self.config.max_output_tokens),
    {
        make_text_request(String::from_str(prompt), 7, self.config.max_output_tokens)
    }
}

// ---------------------------------------------------------------------
// Errors
// ---------------------------------------------------------------------

/// What a reply of the model was asked for.
#[derive(Debug, Clone, Copy, PartialEq, Eq, Structural)]
pub enum Purpose {
    LatexExtraction,
    Analysis,
    Verification,
    VerificationWithImage,
}

/// The shape a payload was expected to have.
#[derive(Debug, Clone, Copy, PartialEq, Eq, Structural)]
pub enum PayloadKind {
    /// `{"latex": ...}`
    LatexOnly,
    /// `{"title": ..., "analysis": {...}}`
    Analysis,
    /// `{"confidence_score": ..., "verification_report": ...}`
    VerificationResult,
    /// `{"status": ..., "issues": [...], "coverage": {...}}`
    Verification,
}

/// Why a call of the model failed.
#[derive(Debug)]
pub enum LlmError {
    /// The request could not be sent, or no reply came.
    SendFailed,
    /// A reply came, but its body could not be read.
    ReadFailed,
    /// The reply's status is no success.
    Status { status: u16, reason: String, body: String },
    /// The body of the reply is not of the shape of a reply.
    MalformedResponse { purpose: Purpose },
    /// The reply holds no candidate with a text.
    NoText { purpose: Purpose },
    /// The reply to a free generation holds no text; the finish reason is the
    /// one the model reported, or `unknown`.
    NoContent { finish_reason: String, raw: String },
    /// The body of the reply to a free generation is not JSON.
    NotJson { raw: String },
    /// The text of the reply is not of the shape that its stage asks for.
    Payload { kind: PayloadKind, clean: String },
    /// A failure that another provider reports in its own words.
    Other { message: String },
}

/// What a `LlmError` holds, with every text as a sequence of characters.
pub enum LlmErrorView {
    SendFailed,
    ReadFailed,
    Status { status: u16, reason: Seq<char>, body: Seq<char> },
    MalformedResponse { purpose: Purpose },
    NoText { purpose: Purpose },
    NoContent { finish_reason: Seq<char>, raw: Seq<char> },
    NotJson { raw: Seq<char> },
    Payload { kind: PayloadKind, clean: Seq<char> },
    Other { message: Seq<char> },
}

impl View for LlmError {
    type V = LlmErrorView;

    open spec fn view(&self) -> LlmErrorView {
        match self {
            LlmError::SendFailed => LlmErrorView::SendFailed,
            LlmError::ReadFailed => LlmErrorView::ReadFailed,
            LlmError::Status { status, reason, body } => LlmErrorView::Status {
                status: *status,
                reason: reason@,
                body: body@,
            },
            LlmError::MalformedResponse { purpose } => LlmErrorView::MalformedResponse {
                purpose: *purpose,
            },
            LlmError::NoText { purpose } => LlmErrorView::NoText { purpose: *purpose },
            LlmError::NoContent { finish_reason, raw } => LlmErrorView::NoContent {
                finish_reason: finish_reason@,
                raw: raw@,
            },
            LlmError::NotJson { raw } => LlmErrorView::NotJson { raw: raw@ },
            LlmError::Payload { kind, clean } => LlmErrorView::Payload {
                kind: *kind,
                clean: clean@,
            },
            LlmError::Other { message } => LlmErrorView::Other { message: message@ },
        }
    }
}

/// The words that name a purpose in a message.
pub open spec fn purpose_text(purpose: Purpose) -> Seq<char> {
    match purpose {
        Purpose::LatexExtraction => "latex extraction"@,
        Purpose::Analysis => "analysis"@,
        Purpose::Verification => "verification"@,
        Purpose::VerificationWithImage => "verification with image"@,
    }
}

/// The words that open the message on a payload of the wrong shape.
pub open spec fn payload_text_head(kind: PayloadKind) -> Seq<char> {
    match kind {
        PayloadKind::LatexOnly => "Failed to parse latex-only content: "@,
        PayloadKind::Analysis => "Failed to parse analysis content: "@,
        PayloadKind::VerificationResult => "Failed to parse verification content from API: "@,
        PayloadKind::Verification => "Failed to parse verification: "@,
    }
}

/// The words that open the message on a status that is no success.
pub const STATUS_FAILURE_HEAD: &'static str = "API request failed with status ";

/// The message on a reply whose status is no success: the status code, its
/// reason phrase, and the body of the reply.
pub open spec fn status_failure_text(status: u16, reason: Seq<char>, body: Seq<char>) -> Seq<
    char,
> {
    STATUS_FAILURE_HEAD@ + decimal(status as nat) + " "@ + reason + ": "@ + body
}

impl LlmErrorView {
    /// The message of the error.
    pub open spec fn text(self) -> Seq<char> {
        match self {
            LlmErrorView::SendFailed => "Failed to send request to Gemini API"@,
            LlmErrorView::ReadFailed => "Failed to read response text"@,
            LlmErrorView::Status { status, reason, body } => status_failure_text(
                status,
                reason,
                body,
            ),
            LlmErrorView::MalformedResponse { purpose } => "Failed to parse Gemini response for "@
                + purpose_text(purpose),
            LlmErrorView::NoText { purpose } => "Gemini returned no text for "@ + purpose_text(
                purpose,
            ),
            LlmErrorView::NoContent { finish_reason, raw } =>
                "Gemini returned no text (finishReason: "@ + finish_reason + "). Raw: "@ + raw,
            LlmErrorView::NotJson { raw } => "Failed to parse Gemini API response JSON: "@ + raw,
            LlmErrorView::Payload { kind, clean } => payload_text_head(kind) + clean,
            LlmErrorView::Other { message } => message,
        }
    }
}

fn purpose_words(purpose: Purpose) -> (r: &'static str)
    ensures
        r@ == purpose_text(purpose),
{
    match purpose {
        Purpose::LatexExtraction => "latex extraction",
        Purpose::Analysis => "analysis",
        Purpose::Verification => "verification",
        Purpose::VerificationWithImage => "verification with image",
    }
}

fn payload_words(kind: PayloadKind) -> (r: &'static str)
    ensures
        r@ == payload_text_head(kind),
{
    match kind {
        PayloadKind::LatexOnly => "Failed to parse latex-only content: ",
        PayloadKind::Analysis => "Failed to parse analysis content: ",
        PayloadKind::VerificationResult => "Failed to parse verification content from API: ",
        PayloadKind::Verification => "Failed to parse verification: ",
    }
}

impl LlmError {
    /// The message of the error.
    pub fn message(&self) -> (r: String)
        ensures
            r@ == self@.text(),
    {
        match self {
            LlmError::SendFailed => String::from_str("Failed to send request to Gemini API"),
            LlmError::ReadFailed => String::from_str("Failed to read response text"),
            LlmError::Status { status, reason, body } => {
                let mut r = String::from_str(STATUS_FAILURE_HEAD);
                push_decimal(&mut r, *status as u64);
                r.append(" ");
                r.append(reason.as_str());
                r.append(": ");
                r.append(body.as_str());
                r
            },
            LlmError::MalformedResponse { purpose } => {
                let mut r = String::from_str("Failed to parse Gemini response for ");
                r.append(purpose_words(*purpose));
                r
            },
            LlmError::NoText { purpose } => {
                let mut r = String::from_str("Gemini returned no text for ");
                r.append(purpose_words(*purpose));
                r
            },
            LlmError::NoContent { finish_reason, raw } => {
                let mut r = String::from_str("Gemini returned no text (finishReason: ");
                r.append(finish_reason.as_str());
                r.append("). Raw: ");
                r.append(raw.as_str());
                r
            },
            LlmError::NotJson { raw } => {
                let mut r = String::from_str("Failed to parse Gemini API response JSON: ");
                r.append(raw.as_str());
                r
            },
            LlmError::Payload { kind, clean } => {
                let mut r = String::from_str(payload_words(*kind));
                r.append(clean.as_str());
                r
            },
            LlmError::Other { message } => message.clone(),
        }
    }
}

// ---------------------------------------------------------------------
// Providers
// ---------------------------------------------------------------------

/// A provider of the model's four capabilities: extraction, analysis,
/// verification and free generation. What a call returns is the provider's
/// affair; nothing is promised of it here.
pub trait LlmClient {
    /// The confidence score and the report for a formula, from the formula alone.
    fn get_verification_result(&self, prompt: &str, latex: &str) -> Result<
        VerificationResult,
        LlmError,
    >;

    /// The structured verification of a formula against its image.
    fn verify_latex_against_image(&self, latex: &str, image_base64: &str, language: &str)
        -> Result<Verification, LlmError>;

    /// The formula that an image shows.
    fn extract_latex(&self, prompt: &str, image_base64: &str) -> Result<String, LlmError>;

    /// The title and the analysis of the formula that an image shows.
    fn generate_analysis(&self, prompt: &str, image_base64: &str) -> Result<
        (String, Analysis),
        LlmError,
    >;

    /// The confidence score and the report for a formula, from the formula
    /// and its image.
    fn get_verification_result_with_image(&self, prompt: &str, latex: &str, image_base64: &str)
        -> Result<VerificationResult, LlmError>;

    /// What the model answers to a prompt.
    fn generate_content(&self, prompt: &str) -> Result<String, LlmError>;
}

} // verus!
