//! What a reply of the model means: the outcome of one attempt, the body
//! of a reply, the text in it, and the value of each stage.
//!
//! Reading JSON into values is left to the caller, who hands over what the
//! strict reading gave. What is decided here is which text is the payload,
//! how it is cleaned, what is recovered from a payload that is not quite
//! JSON, and which error stands for which failure.

use vstd::prelude::*;
use vstd::string::*;

use crate::data_models::{Analysis, AnalysisView};
use crate::llm_api::{LlmError, LlmErrorView, PayloadKind, Purpose};
use crate::text::{
    contains_str, find_from, first_occurrence_from, has_substring, remove_all, string_of_range,
    to_chars, trim_bounds, trimmed, without,
};

verus! {

// ---------------------------------------------------------------------
// One attempt
// ---------------------------------------------------------------------

/// What one attempt to send a request came to.
#[derive(Debug)]
pub enum SendOutcome {
    /// The request could not be sent, or no reply came.
    SendFailed,
    /// A reply came, but its body could not be read.
    ReadFailed,
    /// A reply came: its status code, the reason phrase of that code, and its body.
    Reply { status: u16, reason: String, body: String },
}

/// A status code from 200 to 299.
pub open spec fn is_success(status: u16) -> bool {
    200 <= status < 300
}

/// What one attempt yields: the body of a reply with a success status, or
/// the error that says what went wrong.
pub fn response_text(outcome: SendOutcome) -> (r: Result<String, LlmError>)
    ensures
        match outcome {
            SendOutcome::SendFailed => r matches Err(e) && e@ == LlmErrorView::SendFailed,
            SendOutcome::ReadFailed => r matches Err(e) && e@ == LlmErrorView::ReadFailed,
            SendOutcome::Reply { status, reason, body } => if is_success(status) {
                r matches Ok(text) && text@ == body@
            } else {
                r matches Err(e) && e@ == (LlmErrorView::Status {
                    status,
                    reason: reason@,
                    body: body@,
                })
            },
        },
{
    match outcome {
        SendOutcome::SendFailed => Err(LlmError::SendFailed),
        SendOutcome::ReadFailed => Err(LlmError::ReadFailed),
        SendOutcome::Reply { status, reason, body } => {
            if 200 <= status && status < 300 {
                Ok(body)
            } else {
                Err(LlmError::Status { status, reason, body })
            }
        },
    }
}

// ---------------------------------------------------------------------
// The body of a reply
// ---------------------------------------------------------------------

/// One candidate of a reply: the texts of its parts in order, and the reason
/// the model gave for ending it, where it gave one.
#[derive(Debug)]
pub struct Candidate {
    pub parts: Vec<String>,
    pub finish_reason: Option<String>,
}

/// What a `Candidate` holds, with every text as a sequence of characters.
pub struct CandidateView {
    pub parts: Seq<Seq<char>>,
    pub finish_reason: Option<Seq<char>>,
}

impl View for Candidate {
    type V = CandidateView;

    open spec fn view(&self) -> CandidateView {
        CandidateView {
            parts: self.parts@.map_values(|p: String| p@),
            finish_reason: match self.finish_reason {
                Some(reason) => Some(reason@),
                None => None,
            },
        }
    }
}

/// What the body of a reply turned out to be.
#[derive(Debug)]
pub enum ResponseBody {
    /// A reply of the expected shape: its candidates in order.
    Candidates { candidates: Vec<Candidate> },
    /// JSON of another shape; the finish reason of its first candidate,
    /// where it names one as a string.
    OtherJson { finish_reason: Option<String> },
    /// No JSON at all.
    NotJson,
}

/// What a `ResponseBody` holds, with every text as a sequence of characters.
pub enum ResponseBodyView {
    Candidates { candidates: Seq<CandidateView> },
    OtherJson { finish_reason: Option<Seq<char>> },
    NotJson,
}

impl View for ResponseBody {
    type V = ResponseBodyView;

    open spec fn view(&self) -> ResponseBodyView {
        match self {
            ResponseBody::Candidates { candidates } => ResponseBodyView::Candidates {
                candidates: candidates@.map_values(|c: Candidate| c@),
            },
            ResponseBody::OtherJson { finish_reason } => ResponseBodyView::OtherJson {
                finish_reason: match finish_reason {
                    Some(reason) => Some(reason@),
                    None => None,
                },
            },
            ResponseBody::NotJson => ResponseBodyView::NotJson,
        }
    }
}

/// The finish reason given where the model reported none.
pub const UNKNOWN_FINISH_REASON: &'static str = "unknown";

impl ResponseBodyView {
    /// The payload of a reply: the text of the first part of the first
    /// candidate.
    pub open spec fn first_text(self) -> Option<Seq<char>> {
        match self {
            ResponseBodyView::Candidates { candidates } => if candidates.len() > 0
                && candidates[0].parts.len() > 0 {
                Some(candidates[0].parts[0])
            } else {
                None
            },
            _ => None,
        }
    }

    /// The finish reason that the reply reports for its first candidate, or
    /// `unknown`.
    pub open spec fn finish_reason(self) -> Seq<char> {
        match self {
            ResponseBodyView::Candidates { candidates } => if candidates.len() > 0
                && candidates[0].finish_reason is Some {
                candidates[0].finish_reason->0
            } else {
                UNKNOWN_FINISH_REASON@
            },
            ResponseBodyView::OtherJson { finish_reason } => match finish_reason {
                Some(reason) => reason,
                None => UNKNOWN_FINISH_REASON@,
            },
            ResponseBodyView::NotJson => UNKNOWN_FINISH_REASON@,
        }
    }

    /// The payload of the reply to a stage, or the error that says why there
    /// is none.
    pub open spec fn payload(self, purpose: Purpose) -> Result<Seq<char>, LlmErrorView> {
        match self {
            ResponseBodyView::Candidates { .. } => match self.first_text() {
                Some(text) => Ok(text),
                None => Err(LlmErrorView::NoText { purpose }),
            },
            _ => Err(LlmErrorView::MalformedResponse { purpose }),
        }
    }

    /// The text of the reply to a free generation, cleaned, or the error that
    /// says why there is none; `raw` is the body as it came.
    pub open spec fn content(self, raw: Seq<char>) -> Result<Seq<char>, LlmErrorView> {
        match self.first_text() {
            Some(text) => Ok(cleaned(text)),
            None => match self {
                ResponseBodyView::NotJson => Err(LlmErrorView::NotJson { raw }),
                _ => Err(LlmErrorView::NoContent { finish_reason: self.finish_reason(), raw }),
            },
        }
    }
}

/// The views of what a result holds.
pub open spec fn text_outcome(r: Result<String, LlmError>) -> Result<Seq<char>, LlmErrorView> {
    match r {
        Ok(text) => Ok(text@),
        Err(e) => Err(e@),
    }
}

impl ResponseBody {
    /// The text of the first part of the first candidate.
    pub fn first_text(&self) -> (r: Option<&String>)
        ensures
            match r {
                Some(text) => self@.first_text() == Some(text@),
                None => self@.first_text() is None,
            },
    {
        match self {
            ResponseBody::Candidates { candidates } => {
                if candidates.len() > 0 && candidates[0].parts.len() > 0 {
                    Some(&candidates[0].parts[0])
                } else {
                    None
                }
            },
            _ => None,
        }
    }

    /// The finish reason that the reply reports for its first candidate, or
    /// `unknown`.
    pub fn finish_reason(&self) -> (r: String)
        ensures
            r@ == self@.finish_reason(),
    {
        match self {
            ResponseBody::Candidates { candidates } => {
                if candidates.len() > 0 {
                    match &candidates[0].finish_reason {
                        Some(reason) => reason.clone(),
                        None => String::from_str(UNKNOWN_FINISH_REASON),
                    }
                } else {
                    String::from_str(UNKNOWN_FINISH_REASON)
                }
            },
            ResponseBody::OtherJson { finish_reason } => match finish_reason {
                Some(reason) => reason.clone(),
                None => String::from_str(UNKNOWN_FINISH_REASON),
            },
            ResponseBody::NotJson => String::from_str(UNKNOWN_FINISH_REASON),
        }
    }
}

/// The payload of the reply to a stage, or the error that says why there is
/// none.
pub fn payload_text(purpose: Purpose, body: &ResponseBody) -> (r: Result<String, LlmError>)
    ensures
        text_outcome(r) == body@.payload(purpose),
{
    match body {
        ResponseBody::Candidates { .. } => match body.first_text() {
            Some(text) => Ok(text.clone()),
            None => Err(LlmError::NoText { purpose }),
        },
        _ => Err(LlmError::MalformedResponse { purpose }),
    }
}

/// The text of the reply to a free generation, cleaned, or the error that
/// says why there is none; `raw` is the body as it came.
pub fn generated_content(body: &ResponseBody, raw: &str) -> (r: Result<String, LlmError>)
    ensures
        text_outcome(r) == body@.content(raw@),
{
    match body.first_text() {
        Some(text) => Ok(clean_response(text.as_str())),
        None => match body {
            ResponseBody::NotJson => Err(LlmError::NotJson { raw: String::from_str(raw) }),
            _ => Err(
                LlmError::NoContent {
                    finish_reason: body.finish_reason(),
                    raw: String::from_str(raw),
                },
            ),
        },
    }
}

// ---------------------------------------------------------------------
// The text of a reply
// ---------------------------------------------------------------------

/// The marker that opens a fenced block of JSON.
pub const JSON_FENCE: &'static str = "```json";

/// The marker of a fenced block.
pub const FENCE: &'static str = "```";

/// A text without the markers of fenced blocks and without the whitespace
/// around what is left.
pub open spec fn cleaned(text: Seq<char>) -> Seq<char> {
    trimmed(without(without(text, JSON_FENCE@), FENCE@))
}

/// Strips the markers of fenced blocks and the whitespace around what is
/// left.
pub fn clean_response(response: &str) -> (r: String)
    ensures
        r@ == cleaned(response@),
{
    let chars = to_chars(response);
    let json_fence = to_chars(JSON_FENCE);
    let fence = to_chars(FENCE);
    let stripped = remove_all(&remove_all(&chars, &json_fence), &fence);
    let (from, to) = trim_bounds(&stripped);
    string_of_range(&stripped, from, to)
}

// ---------------------------------------------------------------------
// Lenient extraction
// ---------------------------------------------------------------------

/// The key whose value the lenient extraction looks for, quotes included.
pub const LATEX_KEY: &'static str = "\"latex\"";

/// The index of the quote that closes a JSON string, scanning from `at`; a
/// backslash escapes exactly the character that follows it.
pub open spec fn closing_quote(text: Seq<char>, at: int, escaped: bool) -> Option<int>
    decreases text.len() - at,
{
    if at < 0 || at >= text.len() {
        None
    } else if text[at] == '"' && !escaped {
        Some(at)
    } else {
        closing_quote(text, at + 1, text[at] == '\\' && !escaped)
    }
}

/// The span of the quoted string that follows the key `"latex"`: behind the
/// key the first colon, behind the colon the first quote, and from there to
/// the first quote that no backslash escapes. The span holds both quotes.
pub open spec fn latex_literal_span(text: Seq<char>) -> Option<(int, int)> {
    match first_occurrence_from(text, LATEX_KEY@, 0) {
        None => None,
        Some(key) => match first_occurrence_from(text, seq![':'], key + LATEX_KEY@.len()) {
            None => None,
            Some(colon) => match first_occurrence_from(text, seq!['"'], colon + 1) {
                None => None,
                Some(open) => match closing_quote(text, open + 1, false) {
                    None => None,
                    Some(close) => Some((open, close + 1)),
                },
            },
        },
    }
}

/// The quoted string that follows the key `"latex"`, quotes included.
pub open spec fn latex_literal(text: Seq<char>) -> Option<Seq<char>> {
    match latex_literal_span(text) {
        Some((from, to)) => Some(text.subrange(from, to)),
        None => None,
    }
}

/// What `serde_json::from_str::<String>` makes of a text: the string that
/// the text stands for as a JSON string, or nothing where the text is no
/// JSON string.
pub uninterp spec fn json_string_value(literal: Seq<char>) -> Option<Seq<char>>;

/// The error of `serde_json`, which is carried and never looked into.
#[verifier::external_type_specification]
#[verifier::external_body]
pub struct ExJsonError(serde_json::Error);

/// What a decoding came to, as an option of characters.
pub open spec fn decoded(r: Result<String, serde_json::Error>) -> Option<Seq<char>> {
    match r {
        Ok(s) => Some(s@),
        Err(_) => None,
    }
}

/// `serde_json::from_str::<String>`: reads the whole text as one JSON string,
/// with nothing but whitespace around it, and returns the string that it
/// stands for; it fails on every other text. The contract claims no more
/// than that the outcome depends on the text alone.
#[verifier::external_body]
fn decode_json_string(literal: &str) -> (r: Result<String, serde_json::Error>)
    ensures
        decoded(r) == json_string_value(literal@),
{
    serde_json::from_str::<String>(literal)
}

/// The formula that the lenient extraction recovers from a text: the value
/// of the quoted string behind the key `"latex"`, whatever follows that
/// string.
pub open spec fn relaxed_latex(text: Seq<char>) -> Option<Seq<char>> {
    match latex_literal(text) {
        Some(literal) => json_string_value(literal),
        None => None,
    }
}

fn find_closing_quote(text: &Vec<char>, from: usize) -> (r: Option<usize>)
    ensures
        match r {
            Some(at) => closing_quote(text@, from as int, false) == Some(at as int) && from
                <= at < text.len(),
            None => closing_quote(text@, from as int, false) is None,
        },
{
    let mut i: usize = from;
    let mut escaped = false;
    while i < text.len()
        invariant
            from <= i,
            closing_quote(text@, from as int, false) == closing_quote(text@, i as int, escaped),
        decreases text.len() - i,
    {
        let c = text[i];
        if c == '"' && !escaped {
            return Some(i);
        }
        escaped = c == '\\' && !escaped;
        i = i + 1;
    }
    None
}

/// The quoted string that follows the key `"latex"`, quotes included.
pub fn find_latex_literal(text: &str) -> (r: Option<String>)
    ensures
        match r {
            Some(literal) => latex_literal(text@) == Some(literal@),
            None => latex_literal(text@) is None,
        },
{
    let chars = to_chars(text);
    let key = to_chars(LATEX_KEY);
    let mut colon_pattern: Vec<char> = Vec::new();
    colon_pattern.push(':');
    let mut quote_pattern: Vec<char> = Vec::new();
    quote_pattern.push('"');
    assert(colon_pattern@ =~= seq![':']);
    assert(quote_pattern@ =~= seq!['"']);
    let key_at = match find_from(&chars, &key, 0) {
        Some(at) => at,
        None => {
            return None;
        },
    };
    let colon = match find_from(&chars, &colon_pattern, key_at + key.len()) {
        Some(at) => at,
        None => {
            return None;
        },
    };
    let open = match find_from(&chars, &quote_pattern, colon + 1) {
        Some(at) => at,
        None => {
            return None;
        },
    };
    match find_closing_quote(&chars, open + 1) {
        Some(close) => Some(string_of_range(&chars, open, close + 1)),
        None => None,
    }
}

/// Recovers the formula from a text that is not the JSON it should be: the
/// value of the quoted string behind the key `"latex"`, whatever follows
/// that string. There is no result where no complete quoted string is found
/// or where it is no JSON string.
pub fn try_relaxed_extract_latex(clean: &str) -> (r: Option<String>)
    ensures
        match r {
            Some(latex) => relaxed_latex(clean@) == Some(latex@),
            None => relaxed_latex(clean@) is None,
        },
{
    match find_latex_literal(clean) {
        Some(literal) => match decode_json_string(literal.as_str()) {
            Ok(latex) => Some(latex),
            Err(_) => None,
        },
        None => None,
    }
}

// ---------------------------------------------------------------------
// The result of a stage
// ---------------------------------------------------------------------

/// The key that marks the payload of the analysis stage, quotes included.
pub const ANALYSIS_KEY: &'static str = "\"analysis\"";

/// The title given to an analysis that the model did not deliver.
pub const FALLBACK_ANALYSIS_TITLE: &'static str = "Untitled formula";

/// A value read from a payload, or the error that says that the payload is
/// not of the shape `kind`; `clean` is the payload.
pub fn parsed_or_error<T>(kind: PayloadKind, clean: &str, strict: Option<T>) -> (r: Result<
    T,
    LlmError,
>)
    ensures
        match strict {
            Some(value) => r == Ok::<T, LlmError>(value),
            None => r matches Err(e) && e@ == (LlmErrorView::Payload { kind, clean: clean@ }),
        },
{
    match strict {
        Some(value) => Ok(value),
        None => Err(LlmError::Payload { kind, clean: String::from_str(clean) }),
    }
}

/// The formula of an extraction payload: what strict parsing gave, else what
/// the lenient extraction recovers, else an error.
pub open spec fn extraction_outcome(clean: Seq<char>, strict: Option<Seq<char>>) -> Result<
    Seq<char>,
    LlmErrorView,
> {
    match strict {
        Some(latex) => Ok(latex),
        None => match relaxed_latex(clean) {
            Some(latex) => Ok(latex),
            None => Err(LlmErrorView::Payload { kind: PayloadKind::LatexOnly, clean }),
        },
    }
}

/// The formula of an extraction payload. `strict` is the value of the key
/// `latex` where the payload is the JSON object that the stage asks for.
pub fn extraction_result(clean: &str, strict: Option<String>) -> (r: Result<String, LlmError>)
    ensures
        text_outcome(r) == extraction_outcome(
            clean@,
            match strict {
                Some(latex) => Some(latex@),
                None => None,
            },
        ),
{
    match strict {
        Some(latex) => Ok(latex),
        None => match try_relaxed_extract_latex(clean) {
            Some(latex) => Ok(latex),
            None => Err(
                LlmError::Payload { kind: PayloadKind::LatexOnly, clean: String::from_str(clean) },
            ),
        },
    }
}

/// The payload answers the extraction stage where the analysis stage was
/// asked: it names the key `latex` and not the key `analysis`.
pub open spec fn answers_extraction(clean: Seq<char>) -> bool {
    has_substring(clean, LATEX_KEY@) && !has_substring(clean, ANALYSIS_KEY@)
}

/// The title and the analysis of an analysis payload.
pub open spec fn analysis_outcome(clean: Seq<char>, strict: Option<(Seq<char>, AnalysisView)>)
    -> Result<(Seq<char>, AnalysisView), LlmErrorView> {
    if answers_extraction(clean) {
        Ok((FALLBACK_ANALYSIS_TITLE@, AnalysisView::only_summary(Seq::empty())))
    } else {
        match strict {
            Some(found) => Ok(found),
            None => Err(LlmErrorView::Payload { kind: PayloadKind::Analysis, clean }),
        }
    }
}

/// The views of a title and an analysis.
pub open spec fn titled_view(found: (String, Analysis)) -> (Seq<char>, AnalysisView) {
    (found.0@, found.1@)
}

/// The views of what the result of an analysis holds.
pub open spec fn analysis_view(r: Result<(String, Analysis), LlmError>) -> Result<
    (Seq<char>, AnalysisView),
    LlmErrorView,
> {
    match r {
        Ok(found) => Ok(titled_view(found)),
        Err(e) => Err(e@),
    }
}

/// The title and the analysis of an analysis payload. A payload that
/// answers the extraction stage gives a fixed title and an empty analysis
/// instead of an error. `strict` is what the payload holds where it is the
/// JSON object that the stage asks for.
pub fn analysis_result(clean: &str, strict: Option<(String, Analysis)>) -> (r: Result<
    (String, Analysis),
    LlmError,
>)
    ensures
        analysis_view(r) == analysis_outcome(
            clean@,
            match strict {
                Some(found) => Some(titled_view(found)),
                None => None,
            },
        ),
{
    let chars = to_chars(clean);
    if contains_str(&chars, LATEX_KEY) && !contains_str(&chars, ANALYSIS_KEY) {
        return Ok(
            (String::from_str(FALLBACK_ANALYSIS_TITLE), Analysis::with_summary(String::new())),
        );
    }
    match strict {
        Some(found) => Ok(found),
        None => Err(
            LlmError::Payload { kind: PayloadKind::Analysis, clean: String::from_str(clean) },
        ),
    }
}

} // verus!
