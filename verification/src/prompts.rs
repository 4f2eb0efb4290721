//! The prompts sent to the model: one base text per stage, a language
//! constraint per stage and language, and the output-format rules of the
//! extraction stage.

use vstd::prelude::*;
use vstd::string::*;

use crate::text::str_eq;

verus! {

/// The stage a prompt belongs to.
#[derive(Debug, Clone, Copy, PartialEq, Eq, Structural)]
pub enum PromptType {
    LaTeX,
    Analysis,
    Verification,
}

/// The language the model is asked to answer in.
#[derive(Debug, Clone, Copy, PartialEq, Eq, Structural)]
pub enum Language {
    Chinese,
    English,
}

/// The language a language tag stands for: `zh-CN` is Chinese, anything else English.
pub open spec fn language_of(tag: Seq<char>) -> Language {
    if tag == "zh-CN"@ {
        Language::Chinese
    } else {
        Language::English
    }
}

impl From<&str> for Language {
    fn from(lang: &str) -> (r: Language) {
        if str_eq(lang, "zh-CN") {
            Language::Chinese
        } else {
            Language::English
        }
    }
}

impl vstd::std_specs::convert::FromSpecImpl<&str> for Language {
    open spec fn obeys_from_spec() -> bool {
        true
    }

    open spec fn from_spec(lang: &str) -> Language {
        language_of(lang@)
    }
}

/// The extraction prompt without any addition.
pub const BASE_LATEX_PROMPT: &'static str = "You are an expert in LaTeX OCR. Task: Given an image of a mathematical formula, EXTRACT THE LaTeX EXACTLY as shown in the image.

Never correct math, never infer intent, never simplify/normalize. Strictly preserve spacing/notation, symbol forms, order of terms, matrix layout, and the distinction between scalars vs vectors/tensors (e.g., boldface, overarrow, blackboard vs italic, uppercase/lowercase, indices). Do not convert a scalar to a vector/tensor or vice versa.

Brackets: Pay extreme attention to bracket KINDS and COUNTS. Use the exact types that appear and do not add/remove/misuse them: parentheses (), square brackets [], curly braces {}, and angle brackets ⟨⟩ when present. Ensure LaTeX grouping braces {} are balanced and minimal (no extra {}).

Command integrity: NEVER drop the leading backslash of LaTeX commands/environments. Always output commands with their backslashes, e.g., \\begin{bmatrix} ... \\end{bmatrix}, \\frac{...}{...}, \\partial, \\alpha. Do not output truncated tokens like \"egin\", \"frac\", etc.

Noise handling: Ignore any non-formula artifacts captured in the screenshot (e.g., Word paragraph marks ↵, tab arrows ↹, UI chrome, page/section labels, figure captions, or reference tags like [1]). Transcribe ONLY the actual formula content. Do NOT add references, citations, or links.

Output only a strict JSON object: {\"latex\": \"...\"}. No Markdown, no comments, no extra text. Ensure JSON validity: escape every backslash in LaTeX for JSON (e.g., \\\\frac).";

/// The analysis prompt without any addition.
pub const BASE_ANALYSIS_PROMPT: &'static str = "You are an expert in mathematics, physics, and technical writing. Based on the provided formula image (DO NOT change the formula), produce a structured analysis JSON with the following fields only: {\"title\": \"...\", \"analysis\": {\"summary\": \"...\", \"variables\": [{\"symbol\": \"...\", \"description\": \"...\", \"unit\": \"?\"}], \"terms\": [{\"name\": \"...\", \"description\": \"...\"}], \"suggestions\": [{\"type\": \"error|warning|info\", \"message\": \"...\"}]}}.

Instructions:
1) Variables: enumerate every symbol that appears (parameters, fields, operators like ∇ optional). For each, give a concise meaning and typical SI unit if applicable. If unit is unknown, use \"?\".
2) Terms: identify each distinct term/expression/sub-expression in the equation(s) (e.g., derivatives, integrals, summations, products, norms, matrix/vector operations, source terms). Provide a one-sentence physical/mathematical meaning for each.
3) Suggestions (three levels):
   - error: Hard mistakes such as dimensional inconsistency, impossible identities, wrong operators, missing brackets causing invalid grammar, or evident OCR mistakes leading to invalid math.
   - warning: Unusual or risky presentation that can hinder readability or typesetting (e.g., extremely long expressions likely to overflow, unconventional notation like uu instead of u^2 though intentionally preserved, ambiguous symbols).
   - info: General improvement advice (naming clarity, add definitions, add context equations or equivalent forms).
4) Scalar vs tensor: Pay special attention to the distinction between scalars and vectors/tensors (e.g., bold/arrow notation, indices). Preserve this distinction in variable descriptions and term explanations; do not convert between them.
5) References: Do NOT add references/citations/links anywhere (e.g., [1], (Smith, 2020)).
6) Output must be a strict JSON object with the exact schema above. No Markdown, no code fences, no extra commentary.";

/// The verification prompt without any addition.
pub const BASE_VERIFICATION_PROMPT: &'static str = "You are a meticulous verification expert. Your task is to carefully compare the provided LaTeX code against the original mathematical formula image and provide both a confidence score and a detailed verification report.

Task: Analyze how accurately the LaTeX code represents the original image by examining:
1) Symbol accuracy: Are all symbols correctly identified and transcribed?
2) Structure fidelity: Do exponents, subscripts, fractions, and groupings match exactly?
3) Operator precision: Are mathematical operators (+, -, ×, ÷, =, etc.) correctly placed?
4) Layout consistency: Does the overall mathematical structure and spacing match?
5) Completeness: Are there any missing or extra elements?
6) Scalar vs tensor distinction: Treat mismatches between scalars and vectors/tensors (e.g., bold/arrow notation, indexing/ordering conveying tensor rank) as meaning-changing errors.

Output a strict JSON object with this exact schema:
{
  \"confidence_score\": 0-100,
  \"verification_report\": \"A concise but thorough report detailing any discrepancies found between the LaTeX and the original image. If perfect match, state 'LaTeX accurately represents the original formula.' If issues found, describe specific problems like 'Missing subscript in variable x', 'Incorrect operator placement', or 'Vector/tensor vs scalar mismatch', etc.\"
}

Be precise and objective in your assessment. No Markdown formatting, no code fences, no extra commentary.";

/// The language constraint of the extraction prompt, Simplified Chinese.
pub const LATEX_LANGUAGE_CHINESE: &'static str = "Important: Use Simplified Chinese for any error messages or explanations if needed. Keep JSON keys in English.";

/// The language constraint of the extraction prompt, English.
pub const LATEX_LANGUAGE_ENGLISH: &'static str = "Important: Use English for any error messages or explanations if needed. Keep JSON keys in English.";

/// The language constraint of the analysis prompt, Simplified Chinese.
pub const ANALYSIS_LANGUAGE_CHINESE: &'static str = "Important: Use Simplified Chinese for the values of 'title', 'analysis.summary', 'analysis.variables[*].description', 'analysis.terms[*].description', and 'analysis.suggestions[*].message'. Keep JSON keys in English.";

/// The language constraint of the analysis prompt, English.
pub const ANALYSIS_LANGUAGE_ENGLISH: &'static str = "Important: Use English for the values of 'title', 'analysis.summary', 'analysis.variables[*].description', 'analysis.terms[*].description', and 'analysis.suggestions[*].message'. Keep JSON keys in English.";

/// The language constraint of the verification prompt, Simplified Chinese.
pub const VERIFICATION_LANGUAGE_CHINESE: &'static str = "Important: Use Simplified Chinese for the 'verification_report' content. Keep JSON keys in English.";

/// The language constraint of the verification prompt, English.
pub const VERIFICATION_LANGUAGE_ENGLISH: &'static str = "Important: Use English for the 'verification_report' content. Keep JSON keys in English.";

/// The output-format rule for bare LaTeX.
pub const FORMAT_RULE_RAW: &'static str = "\n\nFormatting rule: Return the bare LaTeX body ONLY inside the JSON value without any math delimiters (no $...$, no $$...$$, no \\[...\\], no \\begin{equation}...\\end{equation}). Place the exact LaTeX string in the 'latex' field.";

/// The output-format rule for `$...$`.
pub const FORMAT_RULE_SINGLE_DOLLAR: &'static str = "\n\nFormatting rule: Wrap the entire LaTeX with $...$ (inline math). The JSON must be {\"latex\": \"$<content>$\"}.";

/// The output-format rule for `$$...$$`.
pub const FORMAT_RULE_DOUBLE_DOLLAR: &'static str = "\n\nFormatting rule: Wrap the entire LaTeX with $$...$$ (display math). The JSON must be {\"latex\": \"$$<content>$$\"}.";

/// The output-format rule for an `equation` environment.
pub const FORMAT_RULE_EQUATION: &'static str = "\n\nFormatting rule: Wrap the entire LaTeX with \\begin{equation} ... \\end{equation}. The JSON must be {\"latex\": \"\\begin{equation}<content>\\end{equation}\"}.";

/// The output-format rule for `\\[...\\]`.
pub const FORMAT_RULE_BRACKET: &'static str = "\n\nFormatting rule: Wrap the entire LaTeX with \\[ ... \\] (display math). The JSON must be {\"latex\": \"\\[<content>\\]\"}.";

/// The output-format rule for a format that has no name here.
pub const FORMAT_RULE_OTHER: &'static str = "\n\nFormatting rule: Return the bare LaTeX body ONLY without any math delimiters and put it into the 'latex' field.";

/// The sentence that closes every output-format rule.
pub const FORMAT_RULE_CLOSING: &'static str = " IMPORTANT: The response MUST be a valid JSON object. Escape every backslash in LaTeX for JSON (e.g., \\\\frac). No Markdown fences.";

/// What separates a base prompt from what is appended to it.
pub const PROMPT_SEPARATOR: &'static str = "\n\n";

/// The base prompt of a stage.
pub open spec fn base_prompt_text(prompt_type: PromptType) -> Seq<char> {
    match prompt_type {
        PromptType::LaTeX => BASE_LATEX_PROMPT@,
        PromptType::Analysis => BASE_ANALYSIS_PROMPT@,
        PromptType::Verification => BASE_VERIFICATION_PROMPT@,
    }
}

/// The language constraint of a stage in a language.
pub open spec fn language_constraint_text(prompt_type: PromptType, language: Language) -> Seq<
    char,
> {
    match (prompt_type, language) {
        (PromptType::LaTeX, Language::Chinese) => LATEX_LANGUAGE_CHINESE@,
        (PromptType::LaTeX, Language::English) => LATEX_LANGUAGE_ENGLISH@,
        (PromptType::Analysis, Language::Chinese) => ANALYSIS_LANGUAGE_CHINESE@,
        (PromptType::Analysis, Language::English) => ANALYSIS_LANGUAGE_ENGLISH@,
        (PromptType::Verification, Language::Chinese) => VERIFICATION_LANGUAGE_CHINESE@,
        (PromptType::Verification, Language::English) => VERIFICATION_LANGUAGE_ENGLISH@,
    }
}

/// A prompt followed by a blank line and an addition.
pub open spec fn with_addition(prompt: Seq<char>, addition: Seq<char>) -> Seq<char> {
    prompt + PROMPT_SEPARATOR@ + addition
}

/// The base prompt of a stage followed by its language constraint.
pub open spec fn full_prompt_text(prompt_type: PromptType, language: Language) -> Seq<char> {
    with_addition(
        base_prompt_text(prompt_type),
        language_constraint_text(prompt_type, language),
    )
}

/// The rule that names the delimiters for a LaTeX output format.
pub open spec fn format_rule_head(default_format: Seq<char>) -> Seq<char> {
    if default_format == "raw"@ {
        FORMAT_RULE_RAW@
    } else if default_format == "single_dollar"@ {
        FORMAT_RULE_SINGLE_DOLLAR@
    } else if default_format == "double_dollar"@ {
        FORMAT_RULE_DOUBLE_DOLLAR@
    } else if default_format == "equation"@ {
        FORMAT_RULE_EQUATION@
    } else if default_format == "bracket"@ {
        FORMAT_RULE_BRACKET@
    } else {
        FORMAT_RULE_OTHER@
    }
}

/// The whole output-format rule appended to an extraction prompt.
pub open spec fn format_rule_text(default_format: Seq<char>) -> Seq<char> {
    format_rule_head(default_format) + FORMAT_RULE_CLOSING@
}

/// `prompt`, a blank line, and `addition`.
pub fn append_addition(prompt: &str, addition: &str) -> (r: String)
    ensures
        r@ == with_addition(prompt@, addition@),
{
    let mut r = String::from_str(prompt);
    r.append(PROMPT_SEPARATOR);
    r.append(addition);
    r
}

/// The keeper of the built-in prompts.
pub struct PromptManager;

impl PromptManager {
    /// The base prompt of a stage, without language constraint.
    pub fn get_base_prompt(prompt_type: PromptType) -> (r: String)
        ensures
            r@ == base_prompt_text(prompt_type),
    {
        match prompt_type {
            PromptType::LaTeX => Self::base_latex_prompt(),
            PromptType::Analysis => Self::base_analysis_prompt(),
            PromptType::Verification => Self::base_verification_prompt(),
        }
    }

    /// The base prompt of a stage, a blank line, and its language constraint.
    pub fn get_full_prompt(prompt_type: PromptType, language: Language) -> (r: String)
        ensures
            r@ == full_prompt_text(prompt_type, language),
    {
        let base = Self::get_base_prompt(prompt_type);
        let constraint = Self::get_language_constraint(prompt_type, language);
        append_addition(base.as_str(), constraint.as_str())
    }

    /// The language constraint of a stage in a language.
    pub fn get_language_constraint(prompt_type: PromptType, language: Language) -> (r: String)
        ensures
            r@ == language_constraint_text(prompt_type, language),
    {
        match prompt_type {
            PromptType::LaTeX => Self::latex_language_constraint(language),
            PromptType::Analysis => Self::analysis_language_constraint(language),
            PromptType::Verification => Self::verification_language_constraint(language),
        }
    }

    /// The base prompt of the extraction stage.
    pub fn base_latex_prompt() -> (r: String)
        ensures
            r@ == BASE_LATEX_PROMPT@,
    {
        String::from_str(BASE_LATEX_PROMPT)
    }

    /// The base prompt of the analysis stage.
    pub fn base_analysis_prompt() -> (r: String)
        ensures
            r@ == BASE_ANALYSIS_PROMPT@,
    {
        String::from_str(BASE_ANALYSIS_PROMPT)
    }

    /// The base prompt of the verification stage.
    pub fn base_verification_prompt() -> (r: String)
        ensures
            r@ == BASE_VERIFICATION_PROMPT@,
    {
        String::from_str(BASE_VERIFICATION_PROMPT)
    }

    /// The language constraint of the extraction stage.
    pub fn latex_language_constraint(language: Language) -> (r: String)
        ensures
            r@ == language_constraint_text(PromptType::LaTeX, language),
    {
        match language {
            Language::Chinese => String::from_str(LATEX_LANGUAGE_CHINESE),
            Language::English => String::from_str(LATEX_LANGUAGE_ENGLISH),
        }
    }

    /// The language constraint of the analysis stage.
    pub fn analysis_language_constraint(language: Language) -> (r: String)
        ensures
            r@ == language_constraint_text(PromptType::Analysis, language),
    {
        match language {
            Language::Chinese => String::from_str(ANALYSIS_LANGUAGE_CHINESE),
            Language::English => String::from_str(ANALYSIS_LANGUAGE_ENGLISH),
        }
    }

    /// The language constraint of the verification stage.
    pub fn verification_language_constraint(language: Language) -> (r: String)
        ensures
            r@ == language_constraint_text(PromptType::Verification, language),
    {
        match language {
            Language::Chinese => String::from_str(VERIFICATION_LANGUAGE_CHINESE),
            Language::English => String::from_str(VERIFICATION_LANGUAGE_ENGLISH),
        }
    }

    /// The language constraint of a stage for a language tag.
    pub fn get_language_constraint_for(prompt_type: PromptType, language: &str) -> (r: String)
        ensures
            r@ == language_constraint_text(prompt_type, language_of(language@)),
    {
        let lang = Language::from(language);
        Self::get_language_constraint(prompt_type, lang)
    }
}

/// The full analysis prompt for a language tag.
pub fn get_analysis_prompt(language: &str) -> (r: String)
    ensures
        r@ == full_prompt_text(PromptType::Analysis, language_of(language@)),
{
    PromptManager::get_full_prompt(PromptType::Analysis, Language::from(language))
}

/// The full verification prompt for a language tag.
pub fn get_verification_prompt(language: &str) -> (r: String)
    ensures
        r@ == full_prompt_text(PromptType::Verification, language_of(language@)),
{
    PromptManager::get_full_prompt(PromptType::Verification, Language::from(language))
}

/// The three base prompts: extraction, analysis, verification.
pub fn get_base_prompts_tuple() -> (r: (String, String, String))
    ensures
        r.0@ == base_prompt_text(PromptType::LaTeX),
        r.1@ == base_prompt_text(PromptType::Analysis),
        r.2@ == base_prompt_text(PromptType::Verification),
{
    (
        PromptManager::get_base_prompt(PromptType::LaTeX),
        PromptManager::get_base_prompt(PromptType::Analysis),
        PromptManager::get_base_prompt(PromptType::Verification),
    )
}

/// The output-format rule appended to an extraction prompt for the configured
/// LaTeX format. The rule only instructs the model; nothing here wraps the
/// formula.
pub fn format_rule_for_latex(default_format: &str) -> (r: String)
    ensures
        r@ == format_rule_text(default_format@),
{
    let rule = if str_eq(default_format, "raw") {
        FORMAT_RULE_RAW
    } else if str_eq(default_format, "single_dollar") {
        FORMAT_RULE_SINGLE_DOLLAR
    } else if str_eq(default_format, "double_dollar") {
        FORMAT_RULE_DOUBLE_DOLLAR
    } else if str_eq(default_format, "equation") {
        FORMAT_RULE_EQUATION
    } else if str_eq(default_format, "bracket") {
        FORMAT_RULE_BRACKET
    } else {
        FORMAT_RULE_OTHER
    };
    let mut r = String::from_str(rule);
    r.append(FORMAT_RULE_CLOSING);
    r
}

/// One prompt taken apart: its base, its format rule where it has one, its
/// language constraint, and the whole.
pub struct PromptParts {
    pub base: String,
    pub format_rule: Option<String>,
    pub language: String,
    pub full: String,
}

/// The three prompts taken apart.
pub struct PromptPartsResponse {
    pub latex: PromptParts,
    pub analysis: PromptParts,
    pub verification: PromptParts,
}

/// The three prompts, with the language constraints that two of them carry.
pub struct PromptsResponse {
    pub latex_prompt: String,
    pub analysis_prompt: String,
    pub verification_prompt: String,
    pub latex_language: Option<String>,
    pub analysis_language: Option<String>,
    pub verification_language: Option<String>,
}

/// The base prompts, none with a language constraint.
pub fn get_default_prompts() -> (r: PromptsResponse)
    ensures
        r.latex_prompt@ == base_prompt_text(PromptType::LaTeX),
        r.analysis_prompt@ == base_prompt_text(PromptType::Analysis),
        r.verification_prompt@ == base_prompt_text(PromptType::Verification),
        r.latex_language is None,
        r.analysis_language is None,
        r.verification_language is None,
{
    let (latex_prompt, analysis_prompt, verification_prompt) = get_base_prompts_tuple();
    PromptsResponse {
        latex_prompt,
        analysis_prompt,
        verification_prompt,
        latex_language: None,
        analysis_language: None,
        verification_language: None,
    }
}

/// The prompts as they are sent for a language: the extraction prompt bare,
/// the other two with their language constraint.
pub fn get_full_prompts_with_language(language: &str) -> (r: PromptsResponse)
    ensures
        r.latex_prompt@ == base_prompt_text(PromptType::LaTeX),
        r.analysis_prompt@ == full_prompt_text(PromptType::Analysis, language_of(language@)),
        r.verification_prompt@ == full_prompt_text(
            PromptType::Verification,
            language_of(language@),
        ),
        r.latex_language is None,
        r.analysis_language matches Some(s) && s@ == language_constraint_text(
            PromptType::Analysis,
            language_of(language@),
        ),
        r.verification_language matches Some(s) && s@ == language_constraint_text(
            PromptType::Verification,
            language_of(language@),
        ),
{
    let (latex_base, analysis_base, verification_base) = get_base_prompts_tuple();
    let analysis_language = PromptManager::get_language_constraint_for(
        PromptType::Analysis,
        language,
    );
    let verification_language = PromptManager::get_language_constraint_for(
        PromptType::Verification,
        language,
    );
    let analysis_prompt = append_addition(analysis_base.as_str(), analysis_language.as_str());
    let verification_prompt = append_addition(
        verification_base.as_str(),
        verification_language.as_str(),
    );
    PromptsResponse {
        latex_prompt: latex_base,
        analysis_prompt,
        verification_prompt,
        latex_language: None,
        analysis_language: Some(analysis_language),
        verification_language: Some(verification_language),
    }
}

/// The three prompts taken apart for a language and a LaTeX format.
pub fn get_prompt_parts(language: &str, default_format: &str) -> (r: PromptPartsResponse)
    ensures
        r.latex.base@ == base_prompt_text(PromptType::LaTeX),
        r.latex.format_rule matches Some(s) && s@ == format_rule_text(default_format@),
        r.latex.language@ == Seq::<char>::empty(),
        r.latex.full@ == base_prompt_text(PromptType::LaTeX) + format_rule_text(default_format@),
        r.analysis.base@ == base_prompt_text(PromptType::Analysis),
        r.analysis.format_rule is None,
        r.analysis.language@ == language_constraint_text(
            PromptType::Analysis,
            language_of(language@),
        ),
        r.analysis.full@ == full_prompt_text(PromptType::Analysis, language_of(language@)),
        r.verification.base@ == base_prompt_text(PromptType::Verification),
        r.verification.format_rule is None,
        r.verification.language@ == language_constraint_text(
            PromptType::Verification,
            language_of(language@),
        ),
        r.verification.full@ == full_prompt_text(
            PromptType::Verification,
            language_of(language@),
        ),
{
    let latex_base = PromptManager::get_base_prompt(PromptType::LaTeX);
    let latex_format = format_rule_for_latex(default_format);
    let mut latex_full = latex_base.clone();
    latex_full.append(latex_format.as_str());

    let analysis_base = PromptManager::get_base_prompt(PromptType::Analysis);
    let analysis_lang = PromptManager::get_language_constraint_for(PromptType::Analysis, language);
    let analysis_full = append_addition(analysis_base.as_str(), analysis_lang.as_str());

    let verification_base = PromptManager::get_base_prompt(PromptType::Verification);
    let verification_lang = PromptManager::get_language_constraint_for(
        PromptType::Verification,
        language,
    );
    let verification_full = append_addition(
        verification_base.as_str(),
        verification_lang.as_str(),
    );

    PromptPartsResponse {
        latex: PromptParts {
            base: latex_base,
            format_rule: Some(latex_format),
            language: String::new(),
            full: latex_full,
        },
        analysis: PromptParts {
            base: analysis_base,
            format_rule: None,
            language: analysis_lang,
            full: analysis_full,
        },
        verification: PromptParts {
            base: verification_base,
            format_rule: None,
            language: verification_lang,
            full: verification_full,
        },
    }
}

} // verus!
