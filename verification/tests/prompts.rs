use formula_scanner::prompts::{
    format_rule_for_latex, get_analysis_prompt, get_base_prompts_tuple, get_default_prompts,
    get_full_prompts_with_language, get_prompt_parts, get_verification_prompt, Language,
    PromptManager, PromptType,
};

#[test]
fn full_prompt_is_base_blank_line_constraint() {
    let base = PromptManager::get_base_prompt(PromptType::Analysis);
    let constraint = PromptManager::get_language_constraint(PromptType::Analysis, Language::English);
    let full = PromptManager::get_full_prompt(PromptType::Analysis, Language::English);
    assert_eq!(full, format!("{}\n\n{}", base, constraint));
    assert_eq!(get_analysis_prompt("en-US"), full);
}

#[test]
fn language_tag_zh_cn_is_chinese_and_all_else_english() {
    assert_eq!(Language::from("zh-CN"), Language::Chinese);
    assert_eq!(Language::from("zh-cn"), Language::English);
    assert_eq!(Language::from("en"), Language::English);
    assert_eq!(Language::from(""), Language::English);
}

#[test]
fn base_prompts_start_and_end_as_written() {
    let (latex, analysis, verification) = get_base_prompts_tuple();
    assert!(latex.starts_with("You are an expert in LaTeX OCR. Task: Given an image"));
    assert!(latex.ends_with("escape every backslash in LaTeX for JSON (e.g., \\\\frac)."));
    assert!(latex.contains("Do not output truncated tokens like \"egin\", \"frac\", etc."));
    assert!(latex.contains("angle brackets ⟨⟩ when present"));
    assert!(analysis.starts_with("You are an expert in mathematics, physics, and technical writing."));
    assert!(analysis.ends_with("No Markdown, no code fences, no extra commentary."));
    assert!(verification.starts_with("You are a meticulous verification expert."));
    assert!(verification.contains("{\n  \"confidence_score\": 0-100,\n"));
    assert_eq!(latex, PromptManager::get_base_prompt(PromptType::LaTeX));
}

#[test]
fn language_constraints_by_stage_and_language() {
    assert_eq!(
        PromptManager::get_language_constraint_for(PromptType::Verification, "zh-CN"),
        "Important: Use Simplified Chinese for the 'verification_report' content. Keep JSON keys in English."
    );
    assert_eq!(
        PromptManager::get_language_constraint_for(PromptType::Verification, "fr"),
        "Important: Use English for the 'verification_report' content. Keep JSON keys in English."
    );
    assert_eq!(
        PromptManager::get_language_constraint_for(PromptType::LaTeX, "zh-CN"),
        "Important: Use Simplified Chinese for any error messages or explanations if needed. Keep JSON keys in English."
    );
    assert!(PromptManager::get_language_constraint_for(PromptType::Analysis, "en")
        .starts_with("Important: Use English for the values of 'title', 'analysis.summary'"));
    assert_eq!(
        get_verification_prompt("zh-CN"),
        format!(
            "{}\n\n{}",
            PromptManager::get_base_prompt(PromptType::Verification),
            PromptManager::get_language_constraint(PromptType::Verification, Language::Chinese)
        )
    );
}

#[test]
fn format_rule_of_each_format() {
    let closing = " IMPORTANT: The response MUST be a valid JSON object. Escape every backslash in LaTeX for JSON (e.g., \\\\frac). No Markdown fences.";
    assert_eq!(
        format_rule_for_latex("single_dollar"),
        format!("\n\nFormatting rule: Wrap the entire LaTeX with $...$ (inline math). The JSON must be {{\"latex\": \"$<content>$\"}}.{}", closing)
    );
    assert_eq!(
        format_rule_for_latex("double_dollar"),
        format!("\n\nFormatting rule: Wrap the entire LaTeX with $$...$$ (display math). The JSON must be {{\"latex\": \"$$<content>$$\"}}.{}", closing)
    );
    assert_eq!(
        format_rule_for_latex("equation"),
        format!("\n\nFormatting rule: Wrap the entire LaTeX with \\begin{{equation}} ... \\end{{equation}}. The JSON must be {{\"latex\": \"\\begin{{equation}}<content>\\end{{equation}}\"}}.{}", closing)
    );
    assert_eq!(
        format_rule_for_latex("bracket"),
        format!("\n\nFormatting rule: Wrap the entire LaTeX with \\[ ... \\] (display math). The JSON must be {{\"latex\": \"\\[<content>\\]\"}}.{}", closing)
    );
    assert!(format_rule_for_latex("raw").starts_with(
        "\n\nFormatting rule: Return the bare LaTeX body ONLY inside the JSON value without any math delimiters"
    ));
}

#[test]
fn format_rule_of_unknown_format() {
    let rule = format_rule_for_latex("something");
    assert!(rule.starts_with("\n\nFormatting rule: Return the bare LaTeX body ONLY without any math delimiters and put it into the 'latex' field."));
    assert!(rule.ends_with("No Markdown fences."));
    assert_eq!(format_rule_for_latex(""), rule);
    assert_ne!(format_rule_for_latex("raw"), rule);
}

#[test]
fn default_prompts_carry_no_language() {
    let r = get_default_prompts();
    let (latex, analysis, verification) = get_base_prompts_tuple();
    assert_eq!(r.latex_prompt, latex);
    assert_eq!(r.analysis_prompt, analysis);
    assert_eq!(r.verification_prompt, verification);
    assert!(r.latex_language.is_none() && r.analysis_language.is_none() && r.verification_language.is_none());
}

#[test]
fn full_prompts_with_language_leave_the_latex_prompt_bare() {
    let r = get_full_prompts_with_language("zh-CN");
    assert_eq!(r.latex_prompt, PromptManager::get_base_prompt(PromptType::LaTeX));
    assert_eq!(r.analysis_prompt, get_analysis_prompt("zh-CN"));
    assert_eq!(r.verification_prompt, get_verification_prompt("zh-CN"));
    assert_eq!(r.latex_language, None);
    assert_eq!(
        r.analysis_language,
        Some(PromptManager::get_language_constraint(PromptType::Analysis, Language::Chinese))
    );
    assert_eq!(
        r.verification_language,
        Some(PromptManager::get_language_constraint(PromptType::Verification, Language::Chinese))
    );
}

#[test]
fn prompt_parts_of_each_stage() {
    let r = get_prompt_parts("en", "raw");
    assert_eq!(r.latex.base, PromptManager::get_base_prompt(PromptType::LaTeX));
    assert_eq!(r.latex.format_rule, Some(format_rule_for_latex("raw")));
    assert_eq!(r.latex.language, "");
    assert_eq!(r.latex.full, format!("{}{}", r.latex.base, format_rule_for_latex("raw")));
    assert_eq!(r.analysis.format_rule, None);
    assert_eq!(r.analysis.full, format!("{}\n\n{}", r.analysis.base, r.analysis.language));
    assert_eq!(r.analysis.full, get_analysis_prompt("en"));
    assert_eq!(r.verification.format_rule, None);
    assert_eq!(r.verification.full, get_verification_prompt("en"));
}
