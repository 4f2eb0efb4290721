//! One recognition: three calls of the model, their order, and what a
//! failure of each means.
//!
//! Extraction and analysis are launched together. Extraction is awaited
//! first: its failure ends the recognition, its formula is what verification
//! needs. Analysis is awaited next, verification last; a failure of either
//! is replaced by a fixed substitute. After each stage one progress event is
//! due, so the events of a recognition come in the order latex, analysis,
//! confidence, whichever call finished first.
//!
//! The three states below are handed on by value. Each can be resolved once,
//! and only the state before it yields it: no event can be had out of order.

use vstd::prelude::*;
use vstd::string::*;

use crate::data_models::{
    option_view, Analysis, AnalysisView, Config, HistoryItem, HistoryItemView, Verification,
    VerificationResult, VerificationResultView, VerificationView,
};
use crate::llm_api::{LlmClient, LlmError, LlmErrorView};
use crate::prompts::{
    append_addition, format_rule_for_latex, format_rule_text, full_prompt_text,
    get_analysis_prompt, get_verification_prompt, language_constraint_text, language_of,
    with_addition, PromptManager, PromptType,
};
use crate::scoring::{
    compute_verification_result_from_struct, degraded_result, scored, REPORT_VERIFICATION_FAILED,
};
use crate::text::{is_blank, is_blank_str, str_eq};

verus! {

/// The title of a formula whose analysis could not be had, in Chinese.
pub const UNTITLED_CHINESE: &'static str = "未命名公式";

/// The title of a formula whose analysis could not be had, in English.
pub const UNTITLED_ENGLISH: &'static str = "Untitled formula";

/// The summary that stands for an analysis that could not be had, in Chinese.
pub const ANALYSIS_UNAVAILABLE_CHINESE: &'static str = "分析暂不可用，请稍后重试。";

/// The summary that stands for an analysis that could not be had, in English.
pub const ANALYSIS_UNAVAILABLE_ENGLISH: &'static str =
    "Analysis is temporarily unavailable. Please try again.";

/// The message for settings without an extraction prompt.
pub const MISSING_LATEX_PROMPT: &'static str =
    "LaTeX 提示词未设置。请在设置中填写或点击‘恢复默认提示词’后重试。";

/// The message for settings without an analysis prompt.
pub const MISSING_ANALYSIS_PROMPT: &'static str =
    "分析提示词未设置。请在设置中填写或点击‘恢复默认提示词’后重试。";

/// The message for settings without a verification prompt.
pub const MISSING_VERIFICATION_PROMPT: &'static str =
    "核查提示词未设置。请在设置中填写或点击‘恢复默认提示词’后重试。";

/// What goes before the base64 text of a PNG image in a data URL.
pub const PNG_DATA_URL_HEAD: &'static str = "data:image/png;base64,";

/// The title of a formula whose analysis could not be had.
pub open spec fn default_title_text(language: Seq<char>) -> Seq<char> {
    if language == "zh-CN"@ {
        UNTITLED_CHINESE@
    } else {
        UNTITLED_ENGLISH@
    }
}

/// The summary that stands for an analysis that could not be had.
pub open spec fn default_summary_text(language: Seq<char>) -> Seq<char> {
    if language == "zh-CN"@ {
        ANALYSIS_UNAVAILABLE_CHINESE@
    } else {
        ANALYSIS_UNAVAILABLE_ENGLISH@
    }
}

/// The title of a formula whose analysis could not be had.
pub fn default_title_for_lang(language: &str) -> (r: String)
    ensures
        r@ == default_title_text(language@),
{
    if str_eq(language, "zh-CN") {
        String::from_str(UNTITLED_CHINESE)
    } else {
        String::from_str(UNTITLED_ENGLISH)
    }
}

/// The summary that stands for an analysis that could not be had.
pub fn default_summary_for_lang(language: &str) -> (r: String)
    ensures
        r@ == default_summary_text(language@),
{
    if str_eq(language, "zh-CN") {
        String::from_str(ANALYSIS_UNAVAILABLE_CHINESE)
    } else {
        String::from_str(ANALYSIS_UNAVAILABLE_ENGLISH)
    }
}

/// Where the prompts of a recognition come from: `full` with an extraction
/// prompt in the settings, else `custom` with a custom prompt, else
/// `default`.
pub open spec fn prompt_version_text(config: Config) -> Seq<char> {
    if config.latex_prompt@.len() != 0 {
        "full"@
    } else if config.custom_prompt@.len() != 0 {
        "custom"@
    } else {
        "default"@
    }
}

/// Where the prompts of a recognition come from.
pub fn determine_prompt_version(config: &Config) -> (r: String)
    ensures
        r@ == prompt_version_text(*config),
{
    if !config.latex_prompt.as_str().is_empty() {
        return String::from_str("full");
    }
    if !config.custom_prompt.as_str().is_empty() {
        return String::from_str("custom");
    }
    String::from_str("default")
}

// ---------------------------------------------------------------------
// Errors
// ---------------------------------------------------------------------

/// Why a recognition failed as a whole.
#[derive(Debug)]
pub enum RecognitionError {
    /// The settings hold no prompt for this stage; no call was made.
    MissingPrompt { stage: PromptType },
    /// A stage failed that has no substitute.
    Stage { stage: PromptType, error: LlmError },
}

/// What a `RecognitionError` holds, with every text as a sequence of characters.
pub enum RecognitionErrorView {
    MissingPrompt { stage: PromptType },
    Stage { stage: PromptType, error: LlmErrorView },
}

impl View for RecognitionError {
    type V = RecognitionErrorView;

    open spec fn view(&self) -> RecognitionErrorView {
        match self {
            RecognitionError::MissingPrompt { stage } => RecognitionErrorView::MissingPrompt {
                stage: *stage,
            },
            RecognitionError::Stage { stage, error } => RecognitionErrorView::Stage {
                stage: *stage,
                error: error@,
            },
        }
    }
}

impl RecognitionErrorView {
    /// The message of the error: one of three fixed messages for a missing
    /// prompt, the message of the stage's error as it is for a failed
    /// stage.
    pub open spec fn text(self) -> Seq<char> {
        match self {
            RecognitionErrorView::MissingPrompt { stage } => match stage {
                PromptType::LaTeX => MISSING_LATEX_PROMPT@,
                PromptType::Analysis => MISSING_ANALYSIS_PROMPT@,
                PromptType::Verification => MISSING_VERIFICATION_PROMPT@,
            },
            RecognitionErrorView::Stage { error, .. } => error.text(),
        }
    }
}

impl RecognitionError {
    /// The message of the error.
    pub fn message(&self) -> (r: String)
        ensures
            r@ == self@.text(),
    {
        match self {
            RecognitionError::MissingPrompt { stage } => match stage {
                PromptType::LaTeX => String::from_str(MISSING_LATEX_PROMPT),
                PromptType::Analysis => String::from_str(MISSING_ANALYSIS_PROMPT),
                PromptType::Verification => String::from_str(MISSING_VERIFICATION_PROMPT),
            },
            RecognitionError::Stage { error, .. } => error.message(),
        }
    }
}

/// The first stage, in the order extraction, analysis, verification, for
/// which the settings hold no prompt but whitespace.
pub open spec fn missing_prompt(config: Config) -> Option<PromptType> {
    if is_blank(config.latex_prompt@) {
        Some(PromptType::LaTeX)
    } else if is_blank(config.analysis_prompt@) {
        Some(PromptType::Analysis)
    } else if is_blank(config.verification_prompt@) {
        Some(PromptType::Verification)
    } else {
        None
    }
}

/// Checks that the settings hold a prompt for every stage.
pub fn check_prompts(config: &Config) -> (r: Result<(), RecognitionError>)
    ensures
        match missing_prompt(*config) {
            Some(stage) => r matches Err(e) && e@ == (RecognitionErrorView::MissingPrompt {
                stage,
            }),
            None => r is Ok,
        },
{
    if is_blank_str(config.latex_prompt.as_str()) {
        return Err(RecognitionError::MissingPrompt { stage: PromptType::LaTeX });
    }
    if is_blank_str(config.analysis_prompt.as_str()) {
        return Err(RecognitionError::MissingPrompt { stage: PromptType::Analysis });
    }
    if is_blank_str(config.verification_prompt.as_str()) {
        return Err(RecognitionError::MissingPrompt { stage: PromptType::Verification });
    }
    Ok(())
}

// ---------------------------------------------------------------------
// Requests and events
// ---------------------------------------------------------------------

/// What one stage sends to the model: its prompt, the image, and for
/// verification the formula that extraction gave.
#[derive(Debug)]
pub struct StageRequest {
    pub stage: PromptType,
    pub prompt: String,
    pub image_base64: String,
    pub latex: Option<String>,
}

/// What a `StageRequest` holds, with every text as a sequence of characters.
pub struct StageRequestView {
    pub stage: PromptType,
    pub prompt: Seq<char>,
    pub image_base64: Seq<char>,
    pub latex: Option<Seq<char>>,
}

impl View for StageRequest {
    type V = StageRequestView;

    open spec fn view(&self) -> StageRequestView {
        StageRequestView {
            stage: self.stage,
            prompt: self.prompt@,
            image_base64: self.image_base64@,
            latex: option_view(self.latex),
        }
    }
}

/// The stage whose end a progress event reports.
#[derive(Debug, Clone, Copy, PartialEq, Eq, Structural)]
pub enum Stage {
    Latex,
    Analysis,
    Confidence,
}

impl Stage {
    /// The name of the stage in an event.
    pub open spec fn name_text(self) -> Seq<char> {
        match self {
            Stage::Latex => "latex"@,
            Stage::Analysis => "analysis"@,
            Stage::Confidence => "confidence"@,
        }
    }

    /// The name of the stage in an event.
    pub fn name(&self) -> (r: &'static str)
        ensures
            r@ == self.name_text(),
    {
        match self {
            Stage::Latex => "latex",
            Stage::Analysis => "analysis",
            Stage::Confidence => "confidence",
        }
    }
}

/// The report that one stage of a recognition has ended, with what the stage
/// gave.
#[derive(Debug)]
pub struct ProgressEvent {
    pub id: String,
    pub stage: Stage,
    pub latex: Option<String>,
    pub title: Option<String>,
    pub analysis: Option<Analysis>,
    pub confidence_score: Option<u8>,
    pub created_at: Option<String>,
    pub original_image: Option<String>,
    pub model_name: Option<String>,
    pub verification: Option<Verification>,
    pub prompt_version: Option<String>,
    pub verification_report: Option<String>,
}

/// What a `ProgressEvent` holds, with every text as a sequence of characters.
pub struct ProgressEventView {
    pub id: Seq<char>,
    pub stage: Stage,
    pub latex: Option<Seq<char>>,
    pub title: Option<Seq<char>>,
    pub analysis: Option<AnalysisView>,
    pub confidence_score: Option<u8>,
    pub created_at: Option<Seq<char>>,
    pub original_image: Option<Seq<char>>,
    pub model_name: Option<Seq<char>>,
    pub verification: Option<VerificationView>,
    pub prompt_version: Option<Seq<char>>,
    pub verification_report: Option<Seq<char>>,
}

impl View for ProgressEvent {
    type V = ProgressEventView;

    open spec fn view(&self) -> ProgressEventView {
        ProgressEventView {
            id: self.id@,
            stage: self.stage,
            latex: option_view(self.latex),
            title: option_view(self.title),
            analysis: option_view(self.analysis),
            confidence_score: self.confidence_score,
            created_at: option_view(self.created_at),
            original_image: option_view(self.original_image),
            model_name: option_view(self.model_name),
            verification: option_view(self.verification),
            prompt_version: option_view(self.prompt_version),
            verification_report: option_view(self.verification_report),
        }
    }
}

/// What every state of one recognition knows.
pub struct ContextView {
    pub id: Seq<char>,
    pub created_at: Seq<char>,
    pub model_name: Seq<char>,
    pub image_base64: Seq<char>,
    pub prompt_version: Seq<char>,
    pub language: Seq<char>,
}

struct Context {
    id: String,
    created_at: String,
    model_name: String,
    image_base64: String,
    prompt_version: String,
    language: String,
}

impl View for Context {
    type V = ContextView;

    closed spec fn view(&self) -> ContextView {
        ContextView {
            id: self.id@,
            created_at: self.created_at@,
            model_name: self.model_name@,
            image_base64: self.image_base64@,
            prompt_version: self.prompt_version@,
            language: self.language@,
        }
    }
}

/// The event that reports the formula.
pub open spec fn latex_event(context: ContextView, latex: Seq<char>) -> ProgressEventView {
    ProgressEventView {
        id: context.id,
        stage: Stage::Latex,
        latex: Some(latex),
        title: None,
        analysis: None,
        confidence_score: None,
        created_at: Some(context.created_at),
        original_image: Some(PNG_DATA_URL_HEAD@ + context.image_base64),
        model_name: Some(context.model_name),
        verification: None,
        prompt_version: Some(context.prompt_version),
        verification_report: None,
    }
}

/// The event that reports the title and the analysis.
pub open spec fn analysis_event(context: ContextView, title: Seq<char>, analysis: AnalysisView)
    -> ProgressEventView {
    ProgressEventView {
        id: context.id,
        stage: Stage::Analysis,
        latex: None,
        title: Some(title),
        analysis: Some(analysis),
        confidence_score: None,
        created_at: None,
        original_image: None,
        model_name: Some(context.model_name),
        verification: None,
        prompt_version: Some(context.prompt_version),
        verification_report: None,
    }
}

/// The event that reports the confidence score and its report.
pub open spec fn confidence_event(context: ContextView, result: VerificationResultView)
    -> ProgressEventView {
    ProgressEventView {
        id: context.id,
        stage: Stage::Confidence,
        latex: None,
        title: None,
        analysis: None,
        confidence_score: Some(result.confidence_score),
        created_at: None,
        original_image: None,
        model_name: Some(context.model_name),
        verification: None,
        prompt_version: Some(context.prompt_version),
        verification_report: Some(result.verification_report),
    }
}

// ---------------------------------------------------------------------
// The three states
// ---------------------------------------------------------------------

/// A recognition whose extraction and analysis were launched and whose
/// extraction is awaited.
pub struct PendingExtraction {
    context: Context,
    verification_prompt: String,
}

/// What a `PendingExtraction` holds, with every text as a sequence of characters.
pub struct PendingExtractionView {
    pub context: ContextView,
    pub verification_prompt: Seq<char>,
}

impl View for PendingExtraction {
    type V = PendingExtractionView;

    closed spec fn view(&self) -> PendingExtractionView {
        PendingExtractionView {
            context: self.context@,
            verification_prompt: self.verification_prompt@,
        }
    }
}

/// A recognition whose formula is known, whose verification was launched
/// and whose analysis is awaited.
pub struct PendingAnalysis {
    context: Context,
    latex: String,
}

/// What a `PendingAnalysis` holds, with every text as a sequence of characters.
pub struct PendingAnalysisView {
    pub context: ContextView,
    pub latex: Seq<char>,
}

impl View for PendingAnalysis {
    type V = PendingAnalysisView;

    closed spec fn view(&self) -> PendingAnalysisView {
        PendingAnalysisView { context: self.context@, latex: self.latex@ }
    }
}

/// A recognition whose formula and analysis are known and whose
/// verification is awaited.
pub struct PendingVerification {
    context: Context,
    latex: String,
    title: String,
    analysis: Analysis,
}

/// What a `PendingVerification` holds, with every text as a sequence of characters.
pub struct PendingVerificationView {
    pub context: ContextView,
    pub latex: Seq<char>,
    pub title: Seq<char>,
    pub analysis: AnalysisView,
}

impl View for PendingVerification {
    type V = PendingVerificationView;

    closed spec fn view(&self) -> PendingVerificationView {
        PendingVerificationView {
            context: self.context@,
            latex: self.latex@,
            title: self.title@,
            analysis: self.analysis@,
        }
    }
}

/// What a recognition knows from its start.
pub open spec fn start_context(
    config: Config,
    image_base64: Seq<char>,
    id: Seq<char>,
    created_at: Seq<char>,
) -> ContextView {
    ContextView {
        id,
        created_at,
        model_name: config.default_engine@,
        image_base64,
        prompt_version: prompt_version_text(config),
        language: config.language@,
    }
}

/// The prompt of the verification stage: the one of the settings with the
/// language constraint.
pub open spec fn verification_prompt_text(config: Config) -> Seq<char> {
    with_addition(
        config.verification_prompt@,
        language_constraint_text(PromptType::Verification, language_of(config.language@)),
    )
}

/// The request of the extraction stage: the prompt of the settings with the
/// output-format rule, and the image.
pub open spec fn extraction_stage_request(config: Config, image_base64: Seq<char>)
    -> StageRequestView {
    StageRequestView {
        stage: PromptType::LaTeX,
        prompt: config.latex_prompt@ + format_rule_text(config.default_latex_format@),
        image_base64,
        latex: None,
    }
}

/// The request of the analysis stage: the prompt of the settings with the
/// language constraint, and the image.
pub open spec fn analysis_stage_request(config: Config, image_base64: Seq<char>)
    -> StageRequestView {
    StageRequestView {
        stage: PromptType::Analysis,
        prompt: with_addition(
            config.analysis_prompt@,
            language_constraint_text(PromptType::Analysis, language_of(config.language@)),
        ),
        image_base64,
        latex: None,
    }
}

/// The request of the verification stage: its prompt, the image, and the
/// formula that extraction gave.
pub open spec fn verification_stage_request(pending: PendingExtractionView, latex: Seq<char>)
    -> StageRequestView {
    StageRequestView {
        stage: PromptType::Verification,
        prompt: pending.verification_prompt,
        image_base64: pending.context.image_base64,
        latex: Some(latex),
    }
}

/// The title and the analysis that the analysis stage leaves: what it gave,
/// or on failure the default title and an analysis that holds nothing but
/// the placeholder summary, both in the language of the settings.
pub open spec fn settled_analysis(
    language: Seq<char>,
    outcome: Result<(Seq<char>, AnalysisView), LlmErrorView>,
) -> (Seq<char>, AnalysisView) {
    match outcome {
        Ok(found) => found,
        Err(_) => (
            default_title_text(language),
            AnalysisView::only_summary(default_summary_text(language)),
        ),
    }
}

/// The result that the verification stage leaves: what it gave, or on
/// failure score 0 with the fixed report.
pub open spec fn settled_verification(outcome: Result<VerificationResultView, LlmErrorView>)
    -> VerificationResultView {
    match outcome {
        Ok(result) => result,
        Err(_) => degraded_result(),
    }
}

/// The record of a finished recognition. Its image is the base64 text until
/// the picture is stored.
pub open spec fn finished_item(pending: PendingVerificationView, result: VerificationResultView)
    -> HistoryItemView {
    HistoryItemView {
        id: pending.context.id,
        latex: pending.latex,
        title: pending.title,
        analysis: pending.analysis,
        is_favorite: false,
        created_at: pending.context.created_at,
        confidence_score: result.confidence_score,
        original_image: pending.context.image_base64,
        model_name: Some(pending.context.model_name),
        verification: None,
        verification_report: Some(result.verification_report),
    }
}

/// The views of what the outcome of the analysis stage holds.
pub open spec fn analysis_outcome_view(outcome: Result<(String, Analysis), LlmError>) -> Result<
    (Seq<char>, AnalysisView),
    LlmErrorView,
> {
    match outcome {
        Ok(found) => Ok((found.0@, found.1@)),
        Err(e) => Err(e@),
    }
}

/// The views of what the outcome of the verification stage holds.
pub open spec fn verification_outcome_view(outcome: Result<VerificationResult, LlmError>)
    -> Result<VerificationResultView, LlmErrorView> {
    match outcome {
        Ok(result) => Ok(result@),
        Err(e) => Err(e@),
    }
}

impl Context {
    fn event(&self, stage: Stage) -> (e: ProgressEvent)
        ensures
            e@ == (ProgressEventView {
                id: self@.id,
                stage,
                latex: None,
                title: None,
                analysis: None,
                confidence_score: None,
                created_at: None,
                original_image: None,
                model_name: Some(self@.model_name),
                verification: None,
                prompt_version: Some(self@.prompt_version),
                verification_report: None,
            }),
    {
        ProgressEvent {
            id: self.id.clone(),
            stage,
            latex: None,
            title: None,
            analysis: None,
            confidence_score: None,
            created_at: None,
            original_image: None,
            model_name: Some(self.model_name.clone()),
            verification: None,
            prompt_version: Some(self.prompt_version.clone()),
            verification_report: None,
        }
    }
}

/// Starts a recognition of an image for the given settings. Settings that
/// lack a prompt are refused before anything is sent. Otherwise the two
/// requests returned, extraction and analysis, are to be launched together,
/// and the state returned awaits the extraction.
pub fn begin(config: &Config, image_base64: String, id: String, created_at: String) -> (r: Result<
    (PendingExtraction, StageRequest, StageRequest),
    RecognitionError,
>)
    ensures
        match missing_prompt(*config) {
            Some(stage) => r matches Err(e) && e@ == (RecognitionErrorView::MissingPrompt {
                stage,
            }),
            None => r matches Ok((pending, extraction, analysis)) && {
                &&& pending@.context == start_context(*config, image_base64@, id@, created_at@)
                &&& pending@.verification_prompt == verification_prompt_text(*config)
                &&& extraction@ == extraction_stage_request(*config, image_base64@)
                &&& analysis@ == analysis_stage_request(*config, image_base64@)
            },
        },
{
    match check_prompts(config) {
        Err(e) => {
            return Err(e);
        },
        Ok(_) => {},
    }
    let mut latex_prompt = config.latex_prompt.clone();
    latex_prompt.append(format_rule_for_latex(config.default_latex_format.as_str()).as_str());
    let analysis_prompt = append_addition(
        config.analysis_prompt.as_str(),
        PromptManager::get_language_constraint_for(
            PromptType::Analysis,
            config.language.as_str(),
        ).as_str(),
    );
    let verification_prompt = append_addition(
        config.verification_prompt.as_str(),
        PromptManager::get_language_constraint_for(
            PromptType::Verification,
            config.language.as_str(),
        ).as_str(),
    );
    let extraction = StageRequest {
        stage: PromptType::LaTeX,
        prompt: latex_prompt,
        image_base64: image_base64.clone(),
        latex: None,
    };
    let analysis = StageRequest {
        stage: PromptType::Analysis,
        prompt: analysis_prompt,
        image_base64: image_base64.clone(),
        latex: None,
    };
    let pending = PendingExtraction {
        context: Context {
            id,
            created_at,
            model_name: config.default_engine.clone(),
            image_base64,
            prompt_version: determine_prompt_version(config),
            language: config.language.clone(),
        },
        verification_prompt,
    };
    Ok((pending, extraction, analysis))
}

impl PendingExtraction {
    /// Takes the outcome of the extraction stage. A failure ends the
    /// recognition with the stage's error as it is. A formula gives the
    /// first event, the request of the verification stage, which is to be
    /// launched now, and the state that awaits the analysis.
    pub fn resolve(self, outcome: Result<String, LlmError>) -> (r: Result<
        (ProgressEvent, StageRequest, PendingAnalysis),
        RecognitionError,
    >)
        ensures
            match outcome {
                Err(error) => r matches Err(e) && e@ == (RecognitionErrorView::Stage {
                    stage: PromptType::LaTeX,
                    error: error@,
                }),
                Ok(latex) => r matches Ok((event, verification, next)) && {
                    &&& event@ == latex_event(self@.context, latex@)
                    &&& verification@ == verification_stage_request(self@, latex@)
                    &&& next@ == (PendingAnalysisView { context: self@.context, latex: latex@ })
                },
            },
    {
        let latex = match outcome {
            Ok(latex) => latex,
            Err(error) => {
                return Err(RecognitionError::Stage { stage: PromptType::LaTeX, error });
            },
        };
        let mut event = self.context.event(Stage::Latex);
        event.latex = Some(latex.clone());
        event.created_at = Some(self.context.created_at.clone());
        let mut data_url = String::from_str(PNG_DATA_URL_HEAD);
        data_url.append(self.context.image_base64.as_str());
        event.original_image = Some(data_url);
        let verification = StageRequest {
            stage: PromptType::Verification,
            prompt: self.verification_prompt,
            image_base64: self.context.image_base64.clone(),
            latex: Some(latex.clone()),
        };
        Ok((event, verification, PendingAnalysis { context: self.context, latex }))
    }
}

impl PendingAnalysis {
    /// Takes the outcome of the analysis stage, or its substitute where the
    /// stage failed, and gives the second event and the state that awaits
    /// the verification.
    pub fn resolve(self, outcome: Result<(String, Analysis), LlmError>) -> (r: (
        ProgressEvent,
        PendingVerification,
    ))
        ensures
            ({
                let settled = settled_analysis(
                    self@.context.language,
                    analysis_outcome_view(outcome),
                );
                &&& r.0@ == analysis_event(self@.context, settled.0, settled.1)
                &&& r.1@ == (PendingVerificationView {
                    context: self@.context,
                    latex: self@.latex,
                    title: settled.0,
                    analysis: settled.1,
                })
            }),
    {
        let (title, analysis) = match outcome {
            Ok(found) => found,
            Err(_) => (
                default_title_for_lang(self.context.language.as_str()),
                Analysis::with_summary(default_summary_for_lang(self.context.language.as_str())),
            ),
        };
        let mut event = self.context.event(Stage::Analysis);
        event.title = Some(title.clone());
        event.analysis = Some(analysis.clone());
        (event, PendingVerification { context: self.context, latex: self.latex, title, analysis })
    }
}

impl PendingVerification {
    /// Takes the outcome of the verification stage, or its substitute where
    /// the stage failed, and gives the third event and the record of the
    /// recognition.
    pub fn resolve(self, outcome: Result<VerificationResult, LlmError>) -> (r: (
        ProgressEvent,
        HistoryItem,
    ))
        ensures
            ({
                let settled = settled_verification(verification_outcome_view(outcome));
                &&& r.0@ == confidence_event(self@.context, settled)
                &&& r.1@ == finished_item(self@, settled)
            }),
    {
        let result = match outcome {
            Ok(result) => result,
            Err(_) => VerificationResult::degraded(),
        };
        let mut event = self.context.event(Stage::Confidence);
        event.confidence_score = Some(result.confidence_score);
        event.verification_report = Some(result.verification_report.clone());
        let item = HistoryItem {
            id: self.context.id,
            latex: self.latex,
            title: self.title,
            analysis: self.analysis,
            is_favorite: false,
            created_at: self.context.created_at,
            confidence_score: result.confidence_score,
            original_image: self.context.image_base64,
            model_name: Some(self.context.model_name),
            verification: None,
            verification_report: Some(result.verification_report),
        };
        (event, item)
    }
}

// ---------------------------------------------------------------------
// A whole recognition
// ---------------------------------------------------------------------

/// What a recognition comes to, given the outcomes of its three stages: an
/// error where extraction failed, else the three events in the order in
/// which they are due and the record.
pub open spec fn recognition_run(
    start: PendingExtractionView,
    extraction: Result<Seq<char>, LlmErrorView>,
    analysis: Result<(Seq<char>, AnalysisView), LlmErrorView>,
    verification: Result<VerificationResultView, LlmErrorView>,
) -> Result<(Seq<ProgressEventView>, HistoryItemView), RecognitionErrorView> {
    match extraction {
        Err(error) => Err(RecognitionErrorView::Stage { stage: PromptType::LaTeX, error }),
        Ok(latex) => {
            let context = start.context;
            let found = settled_analysis(context.language, analysis);
            let result = settled_verification(verification);
            let pending = PendingVerificationView {
                context,
                latex,
                title: found.0,
                analysis: found.1,
            };
            Ok(
                (
                    seq![
                        latex_event(context, latex),
                        analysis_event(context, found.0, found.1),
                        confidence_event(context, result),
                    ],
                    finished_item(pending, result),
                ),
            )
        },
    }
}

/// The views of what the outcome of the extraction stage holds.
pub open spec fn extraction_outcome_view(outcome: Result<String, LlmError>) -> Result<
    Seq<char>,
    LlmErrorView,
> {
    match outcome {
        Ok(latex) => Ok(latex@),
        Err(e) => Err(e@),
    }
}

/// The views of what a whole recognition came to.
pub open spec fn run_view(r: Result<(Vec<ProgressEvent>, HistoryItem), RecognitionError>)
    -> Result<(Seq<ProgressEventView>, HistoryItemView), RecognitionErrorView> {
    match r {
        Ok(done) => Ok((done.0@.map_values(|e: ProgressEvent| e@), done.1@)),
        Err(e) => Err(e@),
    }
}

impl PendingExtraction {
    /// Resolves the three stages in their order from outcomes that are all
    /// at hand, and gives the events in the order in which they are due.
    pub fn resolve_all(
        self,
        extraction: Result<String, LlmError>,
        analysis: Result<(String, Analysis), LlmError>,
        verification: Result<VerificationResult, LlmError>,
    ) -> (r: Result<(Vec<ProgressEvent>, HistoryItem), RecognitionError>)
        ensures
            run_view(r) == recognition_run(
                self@,
                extraction_outcome_view(extraction),
                analysis_outcome_view(analysis),
                verification_outcome_view(verification),
            ),
    {
        let (first, _request, next) = match self.resolve(extraction) {
            Ok(step) => step,
            Err(e) => {
                return Err(e);
            },
        };
        let (second, last) = next.resolve(analysis);
        let (third, item) = last.resolve(verification);
        let mut events: Vec<ProgressEvent> = Vec::new();
        events.push(first);
        events.push(second);
        events.push(third);
        assert(events@.map_values(|e: ProgressEvent| e@) =~= seq![first@, second@, third@]);
        Ok((events, item))
    }
}

/// The stages that a sequence of events reports, in order.
pub open spec fn stages_of(events: Seq<ProgressEventView>) -> Seq<Stage> {
    events.map_values(|e: ProgressEventView| e.stage)
}

/// The events of a recognition that succeeds report the stages latex,
/// analysis, confidence in this order, all under the id of the recognition,
/// whatever the stages gave.
pub proof fn lemma_events_follow_stage_order(
    start: PendingExtractionView,
    extraction: Result<Seq<char>, LlmErrorView>,
    analysis: Result<(Seq<char>, AnalysisView), LlmErrorView>,
    verification: Result<VerificationResultView, LlmErrorView>,
)
    requires
        recognition_run(start, extraction, analysis, verification) is Ok,
    ensures
        ({
            let events = recognition_run(start, extraction, analysis, verification)->Ok_0.0;
            &&& stages_of(events) == seq![Stage::Latex, Stage::Analysis, Stage::Confidence]
            &&& forall|i: int| 0 <= i < events.len() ==> (#[trigger] events[i]).id
                == start.context.id
        }),
{
    let events = recognition_run(start, extraction, analysis, verification)->Ok_0.0;
    assert(stages_of(events) =~= seq![Stage::Latex, Stage::Analysis, Stage::Confidence]);
}

/// A recognition fails exactly when its extraction fails, and then with the
/// error of the extraction as it is, whatever the other stages gave.
pub proof fn lemma_extraction_failure_is_fatal(
    start: PendingExtractionView,
    extraction: Result<Seq<char>, LlmErrorView>,
    analysis: Result<(Seq<char>, AnalysisView), LlmErrorView>,
    verification: Result<VerificationResultView, LlmErrorView>,
)
    ensures
        recognition_run(start, extraction, analysis, verification) is Err <==> extraction is Err,
        extraction matches Err(error) ==> {
            &&& recognition_run(start, extraction, analysis, verification)
                == Err::<(Seq<ProgressEventView>, HistoryItemView), RecognitionErrorView>(
                RecognitionErrorView::Stage { stage: PromptType::LaTeX, error },
            )
            &&& (RecognitionErrorView::Stage { stage: PromptType::LaTeX, error }).text()
                == error.text()
        },
{
}

/// A recognition whose analysis fails succeeds all the same, with the
/// default title and an analysis that holds the placeholder summary and
/// nothing else.
pub proof fn lemma_analysis_failure_is_degraded(
    start: PendingExtractionView,
    latex: Seq<char>,
    error: LlmErrorView,
    verification: Result<VerificationResultView, LlmErrorView>,
)
    ensures
        recognition_run(start, Ok(latex), Err(error), verification) matches Ok(done) && {
            &&& done.1.latex == latex
            &&& done.1.title == default_title_text(start.context.language)
            &&& done.1.analysis == AnalysisView::only_summary(
                default_summary_text(start.context.language),
            )
            &&& done.0[1].title == Some(done.1.title)
            &&& done.0[1].analysis == Some(done.1.analysis)
        },
{
}

/// A recognition whose verification fails succeeds all the same, with
/// confidence score 0 and the fixed report.
pub proof fn lemma_verification_failure_is_degraded(
    start: PendingExtractionView,
    latex: Seq<char>,
    analysis: Result<(Seq<char>, AnalysisView), LlmErrorView>,
    error: LlmErrorView,
)
    ensures
        recognition_run(start, Ok(latex), analysis, Err(error)) matches Ok(done) && {
            &&& done.1.latex == latex
            &&& done.1.confidence_score == 0
            &&& done.1.verification_report == Some(REPORT_VERIFICATION_FAILED@)
            &&& done.0[2].confidence_score == Some(0u8)
            &&& done.0[2].verification_report == Some(REPORT_VERIFICATION_FAILED@)
        },
{
}

/// Puts the path of the stored picture in the place of the image of a record.
pub fn store_picture_path(item: &mut HistoryItem, path: String)
    ensures
        final(item)@ == (HistoryItemView { original_image: path@, ..old(item)@ }),
{
    item.original_image = path;
}

// ---------------------------------------------------------------------
// Single stages, run again or alone
// ---------------------------------------------------------------------

/// The prompt with which the analysis stage is run again: the built-in
/// analysis prompt for the language of the settings. Settings without an
/// analysis prompt are refused.
pub fn retry_analysis_prompt(config: &Config) -> (r: Result<String, RecognitionError>)
    ensures
        if config.analysis_prompt@.len() == 0 {
            r matches Err(e) && e@ == (RecognitionErrorView::MissingPrompt {
                stage: PromptType::Analysis,
            })
        } else {
            r matches Ok(prompt) && prompt@ == full_prompt_text(
                PromptType::Analysis,
                language_of(config.language@),
            )
        },
{
    if config.analysis_prompt.as_str().is_empty() {
        Err(RecognitionError::MissingPrompt { stage: PromptType::Analysis })
    } else {
        Ok(get_analysis_prompt(config.language.as_str()))
    }
}

/// What running the analysis again comes to: what the stage gave, or its
/// error as it is.
pub fn settle_analysis_retry(outcome: Result<(String, Analysis), LlmError>) -> (r: Result<
    (String, Analysis),
    RecognitionError,
>)
    ensures
        analysis_retry_settled(outcome, r),
{
    match outcome {
        Ok(found) => Ok(found),
        Err(error) => Err(RecognitionError::Stage { stage: PromptType::Analysis, error }),
    }
}

/// Runs the analysis stage again. Settings without an analysis prompt are
/// refused before anything is sent. Else the client is asked for an
/// analysis of the image with the prompt of `retry_analysis_prompt`, and
/// the result is what `settle_analysis_retry` makes of the client's answer.
pub fn retry_analysis_phase<C: LlmClient>(client: &C, config: &Config, image_base64: &str) -> (r:
    Result<(String, Analysis), RecognitionError>)
    ensures
        config.analysis_prompt@.len() == 0 ==> (r matches Err(e) && e@
            == (RecognitionErrorView::MissingPrompt { stage: PromptType::Analysis })),
        config.analysis_prompt@.len() != 0 ==> exists|
            outcome: Result<(String, Analysis), LlmError>,
        |
            #[trigger] analysis_asked(client, *config, image_base64, outcome)
                && analysis_retry_settled(outcome, r),
{
    let prompt = match retry_analysis_prompt(config) {
        Ok(prompt) => prompt,
        Err(e) => {
            return Err(e);
        },
    };
    let outcome = client.generate_analysis(prompt.as_str(), image_base64);
    assert(analysis_asked(client, *config, image_base64, outcome));
    settle_analysis_retry(outcome)
}

/// What running the verification again comes to. A structured verification
/// is scored and returned with its score. Without one, the result of the
/// plain verification stands, without a structured part; where that failed
/// too, score 0 with the fixed report stands.
pub open spec fn settled_retry(
    structured: Option<VerificationView>,
    plain: Option<VerificationResultView>,
) -> (VerificationResultView, Option<VerificationView>) {
    match structured {
        Some(verification) => (scored(verification), Some(verification)),
        None => match plain {
            Some(result) => (result, None),
            None => (degraded_result(), None),
        },
    }
}

/// The views of a verification result and the structured verification it
/// may come with.
pub open spec fn retry_view(r: (VerificationResult, Option<Verification>)) -> (
    VerificationResultView,
    Option<VerificationView>,
) {
    (r.0@, option_view(r.1))
}

/// What running the verification again comes to, from what the structured
/// verification gave and what the plain verification gave.
pub fn settle_retry(structured: Option<Verification>, plain: Option<VerificationResult>) -> (r: (
    VerificationResult,
    Option<Verification>,
))
    ensures
        retry_view(r) == settled_retry(option_view(structured), option_view(plain)),
        structured is Some ==> r.0.confidence_score <= 100,
{
    match structured {
        Some(verification) => {
            let result = compute_verification_result_from_struct(&verification);
            (result, Some(verification))
        },
        None => match plain {
            Some(result) => (result, None),
            None => (VerificationResult::degraded(), None),
        },
    }
}

/// Runs the verification again. The client is asked first for the
/// structured verification of the formula against the image, in the
/// language of the settings. Only where that fails it is asked for the
/// plain verification, with the built-in prompt for that language. The
/// result is what `settle_retry` makes of the client's answers; the call
/// never fails.
pub fn retry_verification_phase<C: LlmClient>(
    client: &C,
    config: &Config,
    latex: &str,
    image_base64: &str,
) -> (r: (VerificationResult, Option<Verification>))
    ensures
        r.1 matches Some(verification) ==> r.0@ == scored(verification@) && r.0.confidence_score
            <= 100,
        exists|structured: Result<Verification, LlmError>|
            #[trigger] structured_verification_asked(
                client,
                *config,
                latex,
                image_base64,
                structured,
            ) && match structured {
                Ok(verification) => retry_view(r) == settled_retry(Some(verification@), None),
                Err(_) => exists|plain: Result<VerificationResult, LlmError>|
                    #[trigger] plain_verification_asked(
                        client,
                        *config,
                        latex,
                        image_base64,
                        plain,
                    ) && retry_view(r) == settled_retry(None, result_view(plain)),
            },
{
    let structured = client.verify_latex_against_image(
        latex,
        image_base64,
        config.language.as_str(),
    );
    assert(structured_verification_asked(client, *config, latex, image_base64, structured));
    match structured {
        Ok(verification) => settle_retry(Some(verification), None),
        Err(_) => {
            let prompt = get_verification_prompt(config.language.as_str());
            let plain = client.get_verification_result_with_image(
                prompt.as_str(),
                latex,
                image_base64,
            );
            assert(plain_verification_asked(client, *config, latex, image_base64, plain));
            match plain {
                Ok(result) => settle_retry(None, Some(result)),
                Err(_) => settle_retry(None, None),
            }
        },
    }
}

/// The confidence score in the outcome of a verification, or the error of
/// the verification as it is.
pub fn settle_confidence(outcome: Result<VerificationResult, LlmError>) -> (r: Result<u8, LlmError>)
    ensures
        r == settled_confidence(outcome),
{
    match outcome {
        Ok(result) => Ok(result.confidence_score),
        Err(e) => Err(e),
    }
}

/// The confidence score of a formula, from the formula alone. The client is
/// asked for a verification of the formula with the built-in verification
/// prompt for the language of the settings, and the result is what
/// `settle_confidence` makes of the client's answer.
pub fn get_confidence_score<C: LlmClient>(client: &C, config: &Config, latex: &str) -> (r: Result<
    u8,
    LlmError,
>)
    ensures
        exists|outcome: Result<VerificationResult, LlmError>|
            #[trigger] confidence_asked(client, *config, latex, outcome) && r
                == settled_confidence(outcome),
{
    let prompt = get_verification_prompt(config.language.as_str());
    let outcome = client.get_verification_result(prompt.as_str(), latex);
    assert(confidence_asked(client, *config, latex, outcome));
    settle_confidence(outcome)
}

/// The prompt that tests the connection.
pub const CONNECTION_PROBE: &'static str = "ping";

/// What a test of the connection comes to: `ok` whatever the model
/// answered, or the error of the call as it is.
pub fn settle_connection(outcome: Result<String, LlmError>) -> (r: Result<String, LlmError>)
    ensures
        connection_settled(outcome, r),
{
    match outcome {
        Ok(_) => Ok(String::from_str("ok")),
        Err(e) => Err(e),
    }
}

/// Tests the connection. The client is asked for a free generation from
/// the probe prompt, and the result is what `settle_connection` makes of
/// the client's answer.
pub fn test_connection<C: LlmClient>(client: &C) -> (r: Result<String, LlmError>)
    ensures
        r matches Ok(answer) ==> answer@ == "ok"@,
        exists|outcome: Result<String, LlmError>|
            #[trigger] call_ensures(C::generate_content, (client, CONNECTION_PROBE), outcome)
                && connection_settled(outcome, r),
{
    let outcome = client.generate_content(CONNECTION_PROBE);
    assert(call_ensures(C::generate_content, (client, CONNECTION_PROBE), outcome));
    settle_connection(outcome)
}

// ---------------------------------------------------------------------
// What a client was asked, and what its answer comes to
// ---------------------------------------------------------------------

/// `outcome` is an answer of the client to the request for an analysis of
/// the image with the prompt for running the analysis again.
pub open spec fn analysis_asked<C: LlmClient>(
    client: &C,
    config: Config,
    image_base64: &str,
    outcome: Result<(String, Analysis), LlmError>,
) -> bool {
    exists|prompt: &str|
        prompt@ == full_prompt_text(PromptType::Analysis, language_of(config.language@))
            && #[trigger] call_ensures(
            C::generate_analysis,
            (client, prompt, image_base64),
            outcome,
        )
}

/// What running the analysis again makes of the client's answer: what the
/// stage gave, or its error as it is.
pub open spec fn analysis_retry_settled(
    outcome: Result<(String, Analysis), LlmError>,
    r: Result<(String, Analysis), RecognitionError>,
) -> bool {
    match outcome {
        Ok(found) => r == Ok::<(String, Analysis), RecognitionError>(found),
        Err(error) => r matches Err(e) && e@ == (RecognitionErrorView::Stage {
            stage: PromptType::Analysis,
            error: error@,
        }),
    }
}

/// `structured` is an answer of the client to the request for a structured
/// verification of the formula against the image, in the language of the
/// settings.
pub open spec fn structured_verification_asked<C: LlmClient>(
    client: &C,
    config: Config,
    latex: &str,
    image_base64: &str,
    structured: Result<Verification, LlmError>,
) -> bool {
    exists|language: &str|
        language@ == config.language@ && #[trigger] call_ensures(
            C::verify_latex_against_image,
            (client, latex, image_base64, language),
            structured,
        )
}

/// `plain` is an answer of the client to the request for a verification of
/// the formula against the image with the built-in verification prompt for
/// the language of the settings.
pub open spec fn plain_verification_asked<C: LlmClient>(
    client: &C,
    config: Config,
    latex: &str,
    image_base64: &str,
    plain: Result<VerificationResult, LlmError>,
) -> bool {
    exists|prompt: &str|
        prompt@ == full_prompt_text(PromptType::Verification, language_of(config.language@))
            && #[trigger] call_ensures(
            C::get_verification_result_with_image,
            (client, prompt, latex, image_base64),
            plain,
        )
}

/// The view of the result that a verification gave, where it gave one.
pub open spec fn result_view(outcome: Result<VerificationResult, LlmError>) -> Option<
    VerificationResultView,
> {
    match outcome {
        Ok(result) => Some(result@),
        Err(_) => None,
    }
}

/// `outcome` is an answer of the client to the request for a verification
/// of the formula alone with the built-in verification prompt for the
/// language of the settings.
pub open spec fn confidence_asked<C: LlmClient>(
    client: &C,
    config: Config,
    latex: &str,
    outcome: Result<VerificationResult, LlmError>,
) -> bool {
    exists|prompt: &str|
        prompt@ == full_prompt_text(PromptType::Verification, language_of(config.language@))
            && #[trigger] call_ensures(C::get_verification_result, (client, prompt, latex), outcome)
}

/// The confidence score in the outcome of a verification, or the error of
/// the verification as it is.
pub open spec fn settled_confidence(outcome: Result<VerificationResult, LlmError>) -> Result<
    u8,
    LlmError,
> {
    match outcome {
        Ok(result) => Ok(result.confidence_score),
        Err(error) => Err(error),
    }
}

/// What a test of the connection makes of the client's answer: `ok`
/// whatever the model answered, or the error of the call as it is.
pub open spec fn connection_settled(
    outcome: Result<String, LlmError>,
    r: Result<String, LlmError>,
) -> bool {
    match outcome {
        Ok(_) => r matches Ok(answer) && answer@ == "ok"@,
        Err(error) => r == Err::<String, LlmError>(error),
    }
}

} // verus!
