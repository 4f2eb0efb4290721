//! The records of the application: its configuration, the result of one
//! recognition, and what the model reports about a formula.

use vstd::prelude::*;
use vstd::string::*;

use crate::llm_api::LlmConfig;
use crate::prompts::{base_prompt_text, PromptManager, PromptType};
use crate::text::{is_blank, is_blank_str};

verus! {

/// The views of the items of a sequence.
pub open spec fn views<T: View>(s: Seq<T>) -> Seq<T::V> {
    s.map_values(|x: T| x@)
}

/// The view of what an option holds.
pub open spec fn option_view<T: View>(o: Option<T>) -> Option<T::V> {
    match o {
        Some(x) => Some(x@),
        None => None,
    }
}

/// One hint of the model about a formula; `suggestion_type` is `error`,
/// `warning` or `info`.
#[derive(Debug)]
pub struct Suggestion {
    pub suggestion_type: String,
    pub message: String,
}

/// What a `Suggestion` holds, with every text as a sequence of characters.
pub struct SuggestionView {
    pub suggestion_type: Seq<char>,
    pub message: Seq<char>,
}

impl View for Suggestion {
    type V = SuggestionView;

    open spec fn view(&self) -> SuggestionView {
        SuggestionView { suggestion_type: self.suggestion_type@, message: self.message@ }
    }
}

impl Clone for Suggestion {
    fn clone(&self) -> (r: Self)
        ensures
            r@ == self@,
    {
        Suggestion { suggestion_type: self.suggestion_type.clone(), message: self.message.clone() }
    }
}

/// One symbol of a formula with its meaning and, where it has one, its unit.
#[derive(Debug)]
pub struct VariableInfo {
    pub symbol: String,
    pub description: String,
    pub unit: Option<String>,
}

/// What a `VariableInfo` holds, with every text as a sequence of characters.
pub struct VariableInfoView {
    pub symbol: Seq<char>,
    pub description: Seq<char>,
    pub unit: Option<Seq<char>>,
}

impl View for VariableInfo {
    type V = VariableInfoView;

    open spec fn view(&self) -> VariableInfoView {
        VariableInfoView {
            symbol: self.symbol@,
            description: self.description@,
            unit: option_view(self.unit),
        }
    }
}

impl Clone for VariableInfo {
    fn clone(&self) -> (r: Self)
        ensures
            r@ == self@,
    {
        VariableInfo {
            symbol: self.symbol.clone(),
            description: self.description.clone(),
            unit: self.unit.clone(),
        }
    }
}

/// One term of a formula with its meaning.
#[derive(Debug)]
pub struct TermInfo {
    pub name: String,
    pub description: String,
}

/// What a `TermInfo` holds, with every text as a sequence of characters.
pub struct TermInfoView {
    pub name: Seq<char>,
    pub description: Seq<char>,
}

impl View for TermInfo {
    type V = TermInfoView;

    open spec fn view(&self) -> TermInfoView {
        TermInfoView { name: self.name@, description: self.description@ }
    }
}

impl Clone for TermInfo {
    fn clone(&self) -> (r: Self)
        ensures
            r@ == self@,
    {
        TermInfo { name: self.name.clone(), description: self.description.clone() }
    }
}

/// What the model says about a formula.
#[derive(Debug)]
pub struct Analysis {
    pub summary: String,
    pub variables: Vec<VariableInfo>,
    pub terms: Vec<TermInfo>,
    pub suggestions: Vec<Suggestion>,
}

/// What a `Analysis` holds, with every text as a sequence of characters.
pub struct AnalysisView {
    pub summary: Seq<char>,
    pub variables: Seq<VariableInfoView>,
    pub terms: Seq<TermInfoView>,
    pub suggestions: Seq<SuggestionView>,
}

impl View for Analysis {
    type V = AnalysisView;

    open spec fn view(&self) -> AnalysisView {
        AnalysisView {
            summary: self.summary@,
            variables: views(self.variables@),
            terms: views(self.terms@),
            suggestions: views(self.suggestions@),
        }
    }
}

impl Clone for Analysis {
    fn clone(&self) -> (r: Self)
        ensures
            r@ == self@,
    {
        let r = Analysis {
            summary: self.summary.clone(),
            variables: self.variables.clone(),
            terms: self.terms.clone(),
            suggestions: self.suggestions.clone(),
        };
        assert(views(r.variables@) =~= views(self.variables@));
        assert(views(r.terms@) =~= views(self.terms@));
        assert(views(r.suggestions@) =~= views(self.suggestions@));
        r
    }
}

impl Analysis {
    /// An analysis with the given summary and nothing else.
    pub fn with_summary(summary: String) -> (r: Analysis)
        ensures
            r@ == AnalysisView::only_summary(summary@),
    {
        let r = Analysis {
            summary,
            variables: Vec::new(),
            terms: Vec::new(),
            suggestions: Vec::new(),
        };
        assert(views(r.variables@) =~= Seq::empty());
        assert(views(r.terms@) =~= Seq::empty());
        assert(views(r.suggestions@) =~= Seq::empty());
        r
    }
}

impl AnalysisView {
    /// An analysis with the given summary and nothing else.
    pub open spec fn only_summary(summary: Seq<char>) -> AnalysisView {
        AnalysisView {
            summary,
            variables: Seq::empty(),
            terms: Seq::empty(),
            suggestions: Seq::empty(),
        }
    }
}

/// One difference between a formula and its image; `category` is one of
/// `missing_term`, `extra_term`, `symbol_mismatch`, `notation_mismatch`,
/// `layout_mismatch`, `other`.
#[derive(Debug)]
pub struct VerificationIssue {
    pub category: String,
    pub message: String,
}

/// What a `VerificationIssue` holds, with every text as a sequence of characters.
pub struct VerificationIssueView {
    pub category: Seq<char>,
    pub message: Seq<char>,
}

impl View for VerificationIssue {
    type V = VerificationIssueView;

    open spec fn view(&self) -> VerificationIssueView {
        VerificationIssueView { category: self.category@, message: self.message@ }
    }
}

impl Clone for VerificationIssue {
    fn clone(&self) -> (r: Self)
        ensures
            r@ == self@,
    {
        VerificationIssue { category: self.category.clone(), message: self.message.clone() }
    }
}

/// How many symbols and terms of the image the formula matches.
#[derive(Debug, Clone, Copy, PartialEq, Eq, Structural)]
pub struct VerificationCoverage {
    pub symbols_matched: u32,
    pub symbols_total: u32,
    pub terms_matched: u32,
    pub terms_total: u32,
}

/// The structured result of a verification; `status` is `error`, `warning`
/// or `ok`.
#[derive(Debug)]
pub struct Verification {
    pub status: String,
    pub issues: Vec<VerificationIssue>,
    pub coverage: Option<VerificationCoverage>,
}

/// What a `Verification` holds, with every text as a sequence of characters.
pub struct VerificationView {
    pub status: Seq<char>,
    pub issues: Seq<VerificationIssueView>,
    pub coverage: Option<VerificationCoverage>,
}

impl View for Verification {
    type V = VerificationView;

    open spec fn view(&self) -> VerificationView {
        VerificationView {
            status: self.status@,
            issues: views(self.issues@),
            coverage: self.coverage,
        }
    }
}

impl Clone for Verification {
    fn clone(&self) -> (r: Self)
        ensures
            r@ == self@,
    {
        let r = Verification {
            status: self.status.clone(),
            issues: self.issues.clone(),
            coverage: self.coverage,
        };
        assert(views(r.issues@) =~= views(self.issues@));
        r
    }
}

/// A confidence score from 0 to 100 and the report that explains it.
#[derive(Debug)]
pub struct VerificationResult {
    pub confidence_score: u8,
    pub verification_report: String,
}

/// What a `VerificationResult` holds, with every text as a sequence of characters.
pub struct VerificationResultView {
    pub confidence_score: u8,
    pub verification_report: Seq<char>,
}

impl View for VerificationResult {
    type V = VerificationResultView;

    open spec fn view(&self) -> VerificationResultView {
        VerificationResultView {
            confidence_score: self.confidence_score,
            verification_report: self.verification_report@,
        }
    }
}

impl Clone for VerificationResult {
    fn clone(&self) -> (r: Self)
        ensures
            r@ == self@,
    {
        VerificationResult {
            confidence_score: self.confidence_score,
            verification_report: self.verification_report.clone(),
        }
    }
}

/// One finished recognition as the history keeps it.
#[derive(Debug)]
pub struct HistoryItem {
    pub id: String,
    pub latex: String,
    pub title: String,
    pub analysis: Analysis,
    pub is_favorite: bool,
    pub created_at: String,
    pub confidence_score: u8,
    pub original_image: String,
    pub model_name: Option<String>,
    pub verification: Option<Verification>,
    pub verification_report: Option<String>,
}

/// What a `HistoryItem` holds, with every text as a sequence of characters.
pub struct HistoryItemView {
    pub id: Seq<char>,
    pub latex: Seq<char>,
    pub title: Seq<char>,
    pub analysis: AnalysisView,
    pub is_favorite: bool,
    pub created_at: Seq<char>,
    pub confidence_score: u8,
    pub original_image: Seq<char>,
    pub model_name: Option<Seq<char>>,
    pub verification: Option<VerificationView>,
    pub verification_report: Option<Seq<char>>,
}

impl View for HistoryItem {
    type V = HistoryItemView;

    open spec fn view(&self) -> HistoryItemView {
        HistoryItemView {
            id: self.id@,
            latex: self.latex@,
            title: self.title@,
            analysis: self.analysis@,
            is_favorite: self.is_favorite,
            created_at: self.created_at@,
            confidence_score: self.confidence_score,
            original_image: self.original_image@,
            model_name: option_view(self.model_name),
            verification: option_view(self.verification),
            verification_report: option_view(self.verification_report),
        }
    }
}

impl Clone for HistoryItem {
    fn clone(&self) -> (r: Self)
        ensures
            r@ == self@,
    {
        HistoryItem {
            id: self.id.clone(),
            latex: self.latex.clone(),
            title: self.title.clone(),
            analysis: self.analysis.clone(),
            is_favorite: self.is_favorite,
            created_at: self.created_at.clone(),
            confidence_score: self.confidence_score,
            original_image: self.original_image.clone(),
            model_name: self.model_name.clone(),
            verification: self.verification.clone(),
            verification_report: self.verification_report.clone(),
        }
    }
}

/// The version of the built-in prompts.
pub const PROMPTS_VERSION_CURRENT: u32 = 3;

/// The language tag of a new configuration.
pub const DEFAULT_LANGUAGE: &'static str = "zh-CN";

/// The screenshot shortcut of a new configuration.
pub const DEFAULT_SCREENSHOT_SHORTCUT: &'static str = "CommandOrControl+Shift+A";

/// The endpoint of a new configuration.
pub const DEFAULT_API_BASE_URL: &'static str =
    "https://generativelanguage.googleapis.com/v1beta/models";

/// The model of a new configuration.
pub const DEFAULT_ENGINE: &'static str = "gemini-2.5-flash";

/// The language tag of a new configuration.
pub fn default_language() -> (r: String)
    ensures
        r@ == DEFAULT_LANGUAGE@,
{
    String::from_str(DEFAULT_LANGUAGE)
}

/// The most output tokens of a configuration that names no limit.
pub fn default_max_output_tokens() -> (r: u32)
    ensures
        r == 240000,
{
    240000
}

/// The width of the window of a new installation.
pub fn default_window_width() -> (r: u32)
    ensures
        r == 1280,
{
    1280
}

/// The height of the window of a new installation.
pub fn default_window_height() -> (r: u32)
    ensures
        r == 800,
{
    800
}

/// Whether a new installation remembers the size and place of its window.
pub fn default_remember_window_state() -> (r: bool)
    ensures
        r,
{
    true
}

/// The screenshot shortcut of a new configuration.
pub fn default_screenshot_shortcut() -> (r: String)
    ensures
        r@ == DEFAULT_SCREENSHOT_SHORTCUT@,
{
    String::from_str(DEFAULT_SCREENSHOT_SHORTCUT)
}

/// The version of the built-in prompts.
pub fn current_prompts_version() -> (r: u32)
    ensures
        r == PROMPTS_VERSION_CURRENT,
{
    PROMPTS_VERSION_CURRENT
}

/// The prompts version of a configuration that names none.
pub fn default_prompts_version() -> (r: u32)
    ensures
        r == 0,
{
    0
}

/// The built-in extraction prompt.
pub fn default_latex_prompt() -> (r: String)
    ensures
        r@ == base_prompt_text(PromptType::LaTeX),
{
    PromptManager::get_base_prompt(PromptType::LaTeX)
}

/// The built-in analysis prompt.
pub fn default_analysis_prompt() -> (r: String)
    ensures
        r@ == base_prompt_text(PromptType::Analysis),
{
    PromptManager::get_base_prompt(PromptType::Analysis)
}

/// The built-in verification prompt.
pub fn default_verification_prompt() -> (r: String)
    ensures
        r@ == base_prompt_text(PromptType::Verification),
{
    PromptManager::get_base_prompt(PromptType::Verification)
}

/// The settings of the application.
#[derive(Debug)]
pub struct Config {
    pub api_key: String,
    pub api_base_url: String,
    pub provider: String,
    pub default_engine: String,
    pub custom_prompt: String,
    /// The prompt of the extraction stage.
    pub latex_prompt: String,
    /// The prompt of the analysis stage.
    pub analysis_prompt: String,
    /// The prompt of the verification stage.
    pub verification_prompt: String,
    pub render_engine: String,
    pub auto_calculate_confidence: bool,
    pub enable_clipboard_watcher: bool,
    pub default_latex_format: String,
    pub request_timeout_seconds: u64,
    pub max_retries: u32,
    /// The most tokens the model may answer with.
    pub max_output_tokens: u32,
    pub language: String,
    pub window_width: u32,
    pub window_height: u32,
    pub window_x: Option<i32>,
    pub window_y: Option<i32>,
    pub remember_window_state: bool,
    /// The version of the built-in prompts these settings were last brought to.
    pub prompts_version: u32,
    pub screenshot_shortcut: String,
}

impl Clone for Config {
    fn clone(&self) -> (r: Self)
        ensures
            r == *self,
    {
        Config {
            api_key: self.api_key.clone(),
            api_base_url: self.api_base_url.clone(),
            provider: self.provider.clone(),
            default_engine: self.default_engine.clone(),
            custom_prompt: self.custom_prompt.clone(),
            latex_prompt: self.latex_prompt.clone(),
            analysis_prompt: self.analysis_prompt.clone(),
            verification_prompt: self.verification_prompt.clone(),
            render_engine: self.render_engine.clone(),
            auto_calculate_confidence: self.auto_calculate_confidence,
            enable_clipboard_watcher: self.enable_clipboard_watcher,
            default_latex_format: self.default_latex_format.clone(),
            request_timeout_seconds: self.request_timeout_seconds,
            max_retries: self.max_retries,
            max_output_tokens: self.max_output_tokens,
            language: self.language.clone(),
            window_width: self.window_width,
            window_height: self.window_height,
            window_x: self.window_x,
            window_y: self.window_y,
            remember_window_state: self.remember_window_state,
            prompts_version: self.prompts_version,
            screenshot_shortcut: self.screenshot_shortcut.clone(),
        }
    }
}

impl Default for Config {
    fn default() -> (r: Self)
        ensures
            r.is_default(),
    {
        Config {
            api_key: String::new(),
            api_base_url: String::from_str(DEFAULT_API_BASE_URL),
            provider: String::from_str("gemini"),
            default_engine: String::from_str(DEFAULT_ENGINE),
            custom_prompt: String::new(),
            latex_prompt: default_latex_prompt(),
            analysis_prompt: default_analysis_prompt(),
            verification_prompt: default_verification_prompt(),
            render_engine: String::from_str("MathJax"),
            auto_calculate_confidence: false,
            enable_clipboard_watcher: false,
            default_latex_format: String::from_str("double_dollar"),
            request_timeout_seconds: 120,
            max_retries: 2,
            max_output_tokens: default_max_output_tokens(),
            language: default_language(),
            window_width: default_window_width(),
            window_height: default_window_height(),
            window_x: None,
            window_y: None,
            remember_window_state: default_remember_window_state(),
            prompts_version: current_prompts_version(),
            screenshot_shortcut: default_screenshot_shortcut(),
        }
    }
}

/// A prompt after migration: the built-in one where the settings are behind
/// the current version or the prompt is blank, else the prompt as it was.
pub open spec fn migrated_prompt(version: u32, prompt: Seq<char>, built_in: Seq<char>) -> Seq<
    char,
> {
    if version < PROMPTS_VERSION_CURRENT || is_blank(prompt) {
        built_in
    } else {
        prompt
    }
}

impl Config {
    /// These are the settings of a new installation.
    pub open spec fn is_default(self) -> bool {
        &&& self.api_key@ == Seq::<char>::empty()
        &&& self.api_base_url@ == DEFAULT_API_BASE_URL@
        &&& self.provider@ == "gemini"@
        &&& self.default_engine@ == DEFAULT_ENGINE@
        &&& self.custom_prompt@ == Seq::<char>::empty()
        &&& self.latex_prompt@ == base_prompt_text(PromptType::LaTeX)
        &&& self.analysis_prompt@ == base_prompt_text(PromptType::Analysis)
        &&& self.verification_prompt@ == base_prompt_text(PromptType::Verification)
        &&& self.render_engine@ == "MathJax"@
        &&& !self.auto_calculate_confidence
        &&& !self.enable_clipboard_watcher
        &&& self.default_latex_format@ == "double_dollar"@
        &&& self.request_timeout_seconds == 120
        &&& self.max_retries == 2
        &&& self.max_output_tokens == 240000
        &&& self.language@ == DEFAULT_LANGUAGE@
        &&& self.window_width == 1280
        &&& self.window_height == 800
        &&& self.window_x is None
        &&& self.window_y is None
        &&& self.remember_window_state
        &&& self.prompts_version == PROMPTS_VERSION_CURRENT
        &&& self.screenshot_shortcut@ == DEFAULT_SCREENSHOT_SHORTCUT@
    }

    /// These settings are what migration makes of the settings `before`.
    pub open spec fn is_migration_of(self, before: Config) -> bool {
        &&& self.same_settings(before)
        &&& self.latex_prompt@ == migrated_prompt(
            before.prompts_version,
            before.latex_prompt@,
            base_prompt_text(PromptType::LaTeX),
        )
        &&& self.analysis_prompt@ == migrated_prompt(
            before.prompts_version,
            before.analysis_prompt@,
            base_prompt_text(PromptType::Analysis),
        )
        &&& self.verification_prompt@ == migrated_prompt(
            before.prompts_version,
            before.verification_prompt@,
            base_prompt_text(PromptType::Verification),
        )
        &&& self.prompts_version == if before.prompts_version < PROMPTS_VERSION_CURRENT {
            PROMPTS_VERSION_CURRENT
        } else {
            before.prompts_version
        }
    }

    /// Everything in the settings but the three prompts and their version.
    pub open spec fn same_settings(self, other: Config) -> bool {
        &&& self.api_key == other.api_key
        &&& self.api_base_url == other.api_base_url
        &&& self.provider == other.provider
        &&& self.default_engine == other.default_engine
        &&& self.custom_prompt == other.custom_prompt
        &&& self.render_engine == other.render_engine
        &&& self.auto_calculate_confidence == other.auto_calculate_confidence
        &&& self.enable_clipboard_watcher == other.enable_clipboard_watcher
        &&& self.default_latex_format == other.default_latex_format
        &&& self.request_timeout_seconds == other.request_timeout_seconds
        &&& self.max_retries == other.max_retries
        &&& self.max_output_tokens == other.max_output_tokens
        &&& self.language == other.language
        &&& self.window_width == other.window_width
        &&& self.window_height == other.window_height
        &&& self.window_x == other.window_x
        &&& self.window_y == other.window_y
        &&& self.remember_window_state == other.remember_window_state
        &&& self.screenshot_shortcut == other.screenshot_shortcut
    }

    /// Migration would change these settings.
    pub open spec fn needs_migration(self) -> bool {
        ||| self.prompts_version < PROMPTS_VERSION_CURRENT
        ||| is_blank(self.latex_prompt@)
        ||| is_blank(self.analysis_prompt@)
        ||| is_blank(self.verification_prompt@)
    }

    /// The part of the settings that the client of the model needs.
    pub fn to_llm_config(&self) -> (r: LlmConfig)
        ensures
            r.api_key@ == self.api_key@,
            r.api_base_url@ == self.api_base_url@,
            r.model_name@ == self.default_engine@,
            r.request_timeout_seconds == self.request_timeout_seconds,
            r.max_retries == self.max_retries,
            r.max_output_tokens == self.max_output_tokens,
    {
        LlmConfig {
            api_key: self.api_key.clone(),
            api_base_url: self.api_base_url.clone(),
            model_name: self.default_engine.clone(),
            request_timeout_seconds: self.request_timeout_seconds,
            max_retries: self.max_retries,
            max_output_tokens: self.max_output_tokens,
        }
    }

    /// The built-in prompts: extraction, analysis, verification.
    pub fn default_prompts_tuple() -> (r: (String, String, String))
        ensures
            r.0@ == base_prompt_text(PromptType::LaTeX),
            r.1@ == base_prompt_text(PromptType::Analysis),
            r.2@ == base_prompt_text(PromptType::Verification),
    {
        (default_latex_prompt(), default_analysis_prompt(), default_verification_prompt())
    }

    /// Brings the prompts up to date. Settings behind the current prompts
    /// version get the three built-in prompts and the current version; in
    /// settings that are up to date only a blank prompt is replaced. Returns
    /// whether anything changed.
    pub fn migrate_prompts(&mut self) -> (changed: bool)
        ensures
            changed == old(self).needs_migration(),
            final(self).is_migration_of(*old(self)),
    {
        let mut changed = false;
        let (def_latex, def_analysis, def_ver) = Self::default_prompts_tuple();
        if self.prompts_version < current_prompts_version() {
            self.latex_prompt = def_latex;
            self.analysis_prompt = def_analysis;
            self.verification_prompt = def_ver;
            self.prompts_version = current_prompts_version();
            changed = true;
        } else {
            if is_blank_str(self.latex_prompt.as_str()) {
                self.latex_prompt = def_latex;
                changed = true;
            }
            if is_blank_str(self.analysis_prompt.as_str()) {
                self.analysis_prompt = def_analysis;
                changed = true;
            }
            if is_blank_str(self.verification_prompt.as_str()) {
                self.verification_prompt = def_ver;
                changed = true;
            }
        }
        changed
    }
}

} // verus!
