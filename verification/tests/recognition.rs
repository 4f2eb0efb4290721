use std::cell::RefCell;

use formula_scanner::data_models::{
    Analysis, Config, Verification, VerificationCoverage, VerificationResult,
};
use formula_scanner::llm_api::{LlmClient, LlmError};
use formula_scanner::prompts::{
    format_rule_for_latex, get_analysis_prompt, get_verification_prompt, PromptManager, PromptType,
};
use formula_scanner::recognition::{
    begin, check_prompts, default_summary_for_lang, default_title_for_lang,
    determine_prompt_version, get_confidence_score, retry_analysis_phase, retry_analysis_prompt,
    retry_verification_phase, settle_retry, store_picture_path, test_connection, PendingExtraction,
    RecognitionError, Stage, StageRequest,
};

fn settings(language: &str) -> Config {
    let mut c = Config::default();
    c.latex_prompt = "L".to_string();
    c.analysis_prompt = "A".to_string();
    c.verification_prompt = "V".to_string();
    c.default_latex_format = "raw".to_string();
    c.language = language.to_string();
    c.default_engine = "model-x".to_string();
    c
}

fn started(language: &str) -> (PendingExtraction, StageRequest, StageRequest) {
    begin(&settings(language), "IMG".to_string(), "id-1".to_string(), "2024-05-06T07:08:09Z".to_string())
        .unwrap()
}

fn failure() -> LlmError {
    LlmError::Status { status: 500, reason: "Internal Server Error".to_string(), body: "boom".to_string() }
}

fn analysis_found() -> (String, Analysis) {
    ("Energy".to_string(), Analysis::with_summary("mass and energy".to_string()))
}

fn verified(score: u8) -> VerificationResult {
    VerificationResult { confidence_score: score, verification_report: "fine".to_string() }
}

struct FakeClient {
    structured: Option<Verification>,
    plain: Option<VerificationResult>,
    analysis: Option<(String, Analysis)>,
    content: Option<String>,
    calls: RefCell<Vec<String>>,
}

impl FakeClient {
    fn new() -> FakeClient {
        FakeClient { structured: None, plain: None, analysis: None, content: None, calls: RefCell::new(Vec::new()) }
    }
}

impl LlmClient for FakeClient {
    fn get_verification_result(&self, prompt: &str, latex: &str) -> Result<VerificationResult, LlmError> {
        self.calls.borrow_mut().push(format!("plain|{}|{}", prompt, latex));
        self.plain.clone().ok_or(LlmError::SendFailed)
    }

    fn verify_latex_against_image(&self, latex: &str, image_base64: &str, language: &str) -> Result<Verification, LlmError> {
        self.calls.borrow_mut().push(format!("structured|{}|{}|{}", latex, image_base64, language));
        self.structured.clone().ok_or(LlmError::SendFailed)
    }

    fn extract_latex(&self, prompt: &str, image_base64: &str) -> Result<String, LlmError> {
        self.calls.borrow_mut().push(format!("extract|{}|{}", prompt, image_base64));
        Err(LlmError::SendFailed)
    }

    fn generate_analysis(&self, prompt: &str, image_base64: &str) -> Result<(String, Analysis), LlmError> {
        self.calls.borrow_mut().push(format!("analysis|{}|{}", prompt, image_base64));
        self.analysis.clone().ok_or(LlmError::ReadFailed)
    }

    fn get_verification_result_with_image(&self, prompt: &str, latex: &str, image_base64: &str) -> Result<VerificationResult, LlmError> {
        self.calls.borrow_mut().push(format!("plain-image|{}|{}|{}", prompt, latex, image_base64));
        self.plain.clone().ok_or(LlmError::SendFailed)
    }

    fn generate_content(&self, prompt: &str) -> Result<String, LlmError> {
        self.calls.borrow_mut().push(format!("content|{}", prompt));
        self.content.clone().ok_or(LlmError::SendFailed)
    }
}

#[test]
fn default_title_and_summary_by_language() {
    assert_eq!(default_title_for_lang("zh-CN"), "未命名公式");
    assert_eq!(default_title_for_lang("en"), "Untitled formula");
    assert_eq!(default_title_for_lang(""), "Untitled formula");
    assert_eq!(default_summary_for_lang("zh-CN"), "分析暂不可用，请稍后重试。");
    assert_eq!(default_summary_for_lang("de"), "Analysis is temporarily unavailable. Please try again.");
}

#[test]
fn prompt_version_by_what_the_settings_hold() {
    let mut c = Config::default();
    assert_eq!(determine_prompt_version(&c), "full");
    c.latex_prompt = String::new();
    assert_eq!(determine_prompt_version(&c), "default");
    c.custom_prompt = "mine".to_string();
    assert_eq!(determine_prompt_version(&c), "custom");
    c.latex_prompt = " ".to_string();
    assert_eq!(determine_prompt_version(&c), "full");
}

#[test]
fn missing_prompts_are_refused_with_distinct_messages() {
    let mut c = settings("en");
    assert!(check_prompts(&c).is_ok());
    c.verification_prompt = "  ".to_string();
    let e = check_prompts(&c).unwrap_err();
    assert!(matches!(e, RecognitionError::MissingPrompt { stage: PromptType::Verification }));
    assert_eq!(e.message(), "核查提示词未设置。请在设置中填写或点击‘恢复默认提示词’后重试。");
    c.analysis_prompt = String::new();
    let e = check_prompts(&c).unwrap_err();
    assert!(matches!(e, RecognitionError::MissingPrompt { stage: PromptType::Analysis }));
    assert_eq!(e.message(), "分析提示词未设置。请在设置中填写或点击‘恢复默认提示词’后重试。");
    c.latex_prompt = "\n".to_string();
    let e = check_prompts(&c).unwrap_err();
    assert!(matches!(e, RecognitionError::MissingPrompt { stage: PromptType::LaTeX }));
    assert_eq!(e.message(), "LaTeX 提示词未设置。请在设置中填写或点击‘恢复默认提示词’后重试。");
    let r = begin(&c, "IMG".to_string(), "id".to_string(), "now".to_string());
    assert!(matches!(r, Err(RecognitionError::MissingPrompt { stage: PromptType::LaTeX })));
}

#[test]
fn begin_builds_the_requests_of_extraction_and_analysis() {
    let (_pending, extraction, analysis) = started("zh-CN");
    assert_eq!(extraction.stage, PromptType::LaTeX);
    assert_eq!(extraction.prompt, format!("L{}", format_rule_for_latex("raw")));
    assert_eq!(extraction.image_base64, "IMG");
    assert_eq!(extraction.latex, None);
    assert_eq!(analysis.stage, PromptType::Analysis);
    assert_eq!(
        analysis.prompt,
        format!("A\n\n{}", PromptManager::get_language_constraint_for(PromptType::Analysis, "zh-CN"))
    );
    assert_eq!(analysis.image_base64, "IMG");
    assert_eq!(analysis.latex, None);
}

#[test]
fn events_come_in_stage_order() {
    let (pending, _, _) = started("en");
    let (events, item) = pending
        .resolve_all(Ok("x^2".to_string()), Ok(analysis_found()), Ok(verified(91)))
        .unwrap();
    let stages: Vec<Stage> = events.iter().map(|e| e.stage).collect();
    assert_eq!(stages, vec![Stage::Latex, Stage::Analysis, Stage::Confidence]);
    let names: Vec<&str> = stages.iter().map(|s| s.name()).collect();
    assert_eq!(names, vec!["latex", "analysis", "confidence"]);
    assert!(events.iter().all(|e| e.id == "id-1"));
    assert!(events.iter().all(|e| e.model_name.as_deref() == Some("model-x")));
    assert!(events.iter().all(|e| e.prompt_version.as_deref() == Some("full")));
    assert_eq!(item.id, "id-1");
}

#[test]
fn each_stage_yields_its_event() {
    let (pending, _, _) = started("en");
    let (first, verification, next) = pending.resolve(Ok("x^2".to_string())).unwrap();
    assert_eq!(first.stage, Stage::Latex);
    assert_eq!(first.latex.as_deref(), Some("x^2"));
    assert_eq!(first.created_at.as_deref(), Some("2024-05-06T07:08:09Z"));
    assert_eq!(first.original_image.as_deref(), Some("data:image/png;base64,IMG"));
    assert!(first.title.is_none() && first.analysis.is_none() && first.confidence_score.is_none());
    assert!(first.verification.is_none() && first.verification_report.is_none());

    assert_eq!(verification.stage, PromptType::Verification);
    assert_eq!(
        verification.prompt,
        format!("V\n\n{}", PromptManager::get_language_constraint_for(PromptType::Verification, "en"))
    );
    assert_eq!(verification.image_base64, "IMG");
    assert_eq!(verification.latex.as_deref(), Some("x^2"));

    let (second, last) = next.resolve(Ok(analysis_found()));
    assert_eq!(second.stage, Stage::Analysis);
    assert_eq!(second.title.as_deref(), Some("Energy"));
    assert_eq!(second.analysis.as_ref().unwrap().summary, "mass and energy");
    assert!(second.latex.is_none() && second.created_at.is_none() && second.original_image.is_none());

    let (third, item) = last.resolve(Ok(verified(91)));
    assert_eq!(third.stage, Stage::Confidence);
    assert_eq!(third.confidence_score, Some(91));
    assert_eq!(third.verification_report.as_deref(), Some("fine"));
    assert!(third.latex.is_none() && third.title.is_none() && third.verification.is_none());

    assert_eq!(item.latex, "x^2");
    assert_eq!(item.title, "Energy");
    assert_eq!(item.analysis.summary, "mass and energy");
    assert!(!item.is_favorite);
    assert_eq!(item.created_at, "2024-05-06T07:08:09Z");
    assert_eq!(item.confidence_score, 91);
    assert_eq!(item.original_image, "IMG");
    assert_eq!(item.model_name.as_deref(), Some("model-x"));
    assert!(item.verification.is_none());
    assert_eq!(item.verification_report.as_deref(), Some("fine"));
}

#[test]
fn extraction_failure_fails_the_whole_recognition() {
    let (pending, _, _) = started("en");
    let r = pending.resolve_all(Err(failure()), Ok(analysis_found()), Ok(verified(91)));
    let e = r.unwrap_err();
    assert!(matches!(e, RecognitionError::Stage { stage: PromptType::LaTeX, .. }));
    assert_eq!(e.message(), "API request failed with status 500 Internal Server Error: boom");
    let (pending, _, _) = started("en");
    assert!(pending.resolve(Err(LlmError::SendFailed)).is_err());
}

#[test]
fn analysis_failure_is_replaced_by_the_default() {
    let (pending, _, _) = started("en");
    let (events, item) = pending.resolve_all(Ok("x".to_string()), Err(failure()), Ok(verified(80))).unwrap();
    assert_eq!(item.title, "Untitled formula");
    assert_eq!(item.analysis.summary, "Analysis is temporarily unavailable. Please try again.");
    assert!(item.analysis.variables.is_empty() && item.analysis.terms.is_empty() && item.analysis.suggestions.is_empty());
    assert_eq!(events[1].title.as_deref(), Some("Untitled formula"));
    assert_eq!(item.confidence_score, 80);

    let (pending, _, _) = started("zh-CN");
    let (_, item) = pending.resolve_all(Ok("x".to_string()), Err(failure()), Ok(verified(80))).unwrap();
    assert_eq!(item.title, "未命名公式");
    assert_eq!(item.analysis.summary, "分析暂不可用，请稍后重试。");
}

#[test]
fn verification_failure_is_replaced_by_score_zero() {
    let (pending, _, _) = started("en");
    let (events, item) = pending.resolve_all(Ok("x".to_string()), Ok(analysis_found()), Err(failure())).unwrap();
    assert_eq!(item.confidence_score, 0);
    assert_eq!(item.verification_report.as_deref(), Some("verification failed"));
    assert_eq!(events[2].confidence_score, Some(0));
    assert_eq!(events[2].verification_report.as_deref(), Some("verification failed"));
    assert_eq!(item.title, "Energy");
    assert_eq!(events.len(), 3);
}

#[test]
fn picture_path_replaces_the_image_of_a_record() {
    let (pending, _, _) = started("en");
    let (_, mut item) = pending.resolve_all(Ok("x".to_string()), Ok(analysis_found()), Ok(verified(1))).unwrap();
    store_picture_path(&mut item, "/data/pictures/20240506_070809_id-1.png".to_string());
    assert_eq!(item.original_image, "/data/pictures/20240506_070809_id-1.png");
    assert_eq!(item.latex, "x");
}

#[test]
fn retry_of_analysis_uses_the_built_in_prompt() {
    let mut c = settings("zh-CN");
    assert_eq!(retry_analysis_prompt(&c).unwrap(), get_analysis_prompt("zh-CN"));
    let mut client = FakeClient::new();
    client.analysis = Some(analysis_found());
    let (title, _) = retry_analysis_phase(&client, &c, "IMG").unwrap();
    assert_eq!(title, "Energy");
    assert_eq!(client.calls.borrow()[0], format!("analysis|{}|IMG", get_analysis_prompt("zh-CN")));

    let failing = FakeClient::new();
    let e = retry_analysis_phase(&failing, &c, "IMG").unwrap_err();
    assert!(matches!(e, RecognitionError::Stage { stage: PromptType::Analysis, error: LlmError::ReadFailed }));
    assert_eq!(e.message(), "Failed to read response text");

    c.analysis_prompt = String::new();
    let unused = FakeClient::new();
    let e = retry_analysis_phase(&unused, &c, "IMG").unwrap_err();
    assert!(matches!(e, RecognitionError::MissingPrompt { stage: PromptType::Analysis }));
    assert!(unused.calls.borrow().is_empty());
}

#[test]
fn retry_of_verification_scores_a_structured_result() {
    let v = Verification {
        status: "warning".to_string(),
        issues: vec![],
        coverage: Some(VerificationCoverage { symbols_matched: 8, symbols_total: 10, terms_matched: 2, terms_total: 4 }),
    };
    let mut client = FakeClient::new();
    client.structured = Some(v);
    client.plain = Some(verified(12));
    let (result, structured) = retry_verification_phase(&client, &settings("en"), "x", "IMG");
    assert_eq!(result.confidence_score, 73);
    assert_eq!(result.verification_report, "存在版式/排版差异，但不影响数学含义。");
    assert_eq!(structured.unwrap().status, "warning");
    assert_eq!(*client.calls.borrow(), vec!["structured|x|IMG|en".to_string()]);
}

#[test]
fn retry_of_verification_falls_back_to_the_plain_result() {
    let mut client = FakeClient::new();
    client.plain = Some(verified(12));
    let (result, structured) = retry_verification_phase(&client, &settings("en"), "x", "IMG");
    assert_eq!((result.confidence_score, result.verification_report.as_str()), (12, "fine"));
    assert!(structured.is_none());
    assert_eq!(
        *client.calls.borrow(),
        vec!["structured|x|IMG|en".to_string(), format!("plain-image|{}|x|IMG", get_verification_prompt("en"))]
    );

    let dead = FakeClient::new();
    let (result, structured) = retry_verification_phase(&dead, &settings("en"), "x", "IMG");
    assert_eq!((result.confidence_score, result.verification_report.as_str()), (0, "verification failed"));
    assert!(structured.is_none());
}

#[test]
fn settle_retry_by_what_is_at_hand() {
    let v = Verification { status: "ok".to_string(), issues: vec![], coverage: None };
    let (r, s) = settle_retry(Some(v), Some(verified(5)));
    assert_eq!(r.confidence_score, 100);
    assert!(s.is_some());
    let (r, s) = settle_retry(None, Some(verified(5)));
    assert_eq!(r.confidence_score, 5);
    assert!(s.is_none());
    let (r, s) = settle_retry(None, None);
    assert_eq!(r.verification_report, "verification failed");
    assert!(s.is_none());
}

#[test]
fn confidence_score_comes_from_the_plain_verification() {
    let mut client = FakeClient::new();
    client.plain = Some(verified(64));
    assert_eq!(get_confidence_score(&client, &settings("zh-CN"), "x").unwrap(), 64);
    assert_eq!(client.calls.borrow()[0], format!("plain|{}|x", get_verification_prompt("zh-CN")));
    assert!(matches!(get_confidence_score(&FakeClient::new(), &settings("en"), "x"), Err(LlmError::SendFailed)));
}

#[test]
fn connection_test_sends_a_ping() {
    let mut client = FakeClient::new();
    client.content = Some("pong, whatever".to_string());
    assert_eq!(test_connection(&client).unwrap(), "ok");
    assert_eq!(*client.calls.borrow(), vec!["content|ping".to_string()]);
    assert!(matches!(test_connection(&FakeClient::new()), Err(LlmError::SendFailed)));
}
