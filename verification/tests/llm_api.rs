use formula_scanner::data_models::Config;
use formula_scanner::llm_api::{
    ApiClient, GenerationRequest, LlmConfig, LlmError, PayloadKind, Purpose, RequestPart,
};

fn config(base: &str, key: &str) -> LlmConfig {
    LlmConfig {
        api_key: key.to_string(),
        api_base_url: base.to_string(),
        model_name: "gemini-2.5-flash".to_string(),
        request_timeout_seconds: 120,
        max_retries: 2,
        max_output_tokens: 4096,
    }
}

fn status_error(status: u16, reason: &str, body: &str) -> LlmError {
    LlmError::Status { status, reason: reason.to_string(), body: body.to_string() }
}

fn text_of(part: &RequestPart) -> String {
    match part {
        RequestPart::Text { text } => text.clone(),
        RequestPart::InlineData { .. } => panic!("no text part"),
    }
}

fn image_of(part: &RequestPart) -> (String, String) {
    match part {
        RequestPart::InlineData { mime_type, data } => (mime_type.clone(), data.clone()),
        RequestPart::Text { .. } => panic!("no image part"),
    }
}

#[test]
fn models_base_is_brought_to_a_models_path() {
    let base = |b: &str| ApiClient::new(config(b, "")).canonical_models_base();
    assert_eq!(
        base("https://generativelanguage.googleapis.com/v1beta/models"),
        "https://generativelanguage.googleapis.com/v1beta/models"
    );
    assert_eq!(base("https://proxy.example.com"), "https://proxy.example.com/v1beta/models");
    assert_eq!(base("https://proxy.example.com/"), "https://proxy.example.com/v1beta/models");
    assert_eq!(base("https://proxy.example.com/v1"), "https://proxy.example.com/v1/models");
    assert_eq!(base("https://proxy.example.com/v1beta///"), "https://proxy.example.com/v1beta/models");
    assert_eq!(base("https://proxy.example.com/v1/models/"), "https://proxy.example.com/v1/models");
    assert_eq!(base("https://x/models-archive"), "https://x/models-archive");
    assert_eq!(base(""), "/v1beta/models");
    for b in ["", "/", "a", "https://h/v1", "https://h/v2/", "https://h/api/models/x"] {
        assert!(base(b).contains("/models"));
    }
}

#[test]
fn request_url_names_model_method_and_key() {
    let with_key = ApiClient::new(config("https://h/v1beta/models", "SECRET-REDACTED"));
    assert_eq!(
        with_key.request_url(),
        "https://h/v1beta/models/gemini-2.5-flash:generateContent?key=SECRET-REDACTED"
    );
    let without_key = ApiClient::new(config("https://h", ""));
    assert_eq!(without_key.request_url(), "https://h/v1beta/models/gemini-2.5-flash:generateContent");
}

#[test]
fn requests_of_the_stages() {
    let client = ApiClient::new(config("https://h", ""));
    let r: GenerationRequest = client.extraction_request("extract", "AAAA");
    assert_eq!((r.temperature_tenths, r.max_output_tokens, r.parts.len()), (2, 4096, 2));
    assert_eq!(text_of(&r.parts[0]), "extract");
    assert_eq!(image_of(&r.parts[1]), ("image/png".to_string(), "AAAA".to_string()));

    let r = client.analysis_request("analyse", "BBBB");
    assert_eq!((r.temperature_tenths, r.parts.len()), (5, 2));
    assert_eq!(text_of(&r.parts[0]), "analyse");
    assert_eq!(image_of(&r.parts[1]).1, "BBBB");

    let r = client.verification_request("verify", "x^2");
    assert_eq!((r.temperature_tenths, r.parts.len()), (2, 1));
    assert_eq!(text_of(&r.parts[0]), "verify\n\nLaTeX to evaluate: x^2");

    let r = client.verification_request_with_image("verify", "x^2", "CCCC");
    assert_eq!((r.temperature_tenths, r.parts.len()), (2, 2));
    assert_eq!(text_of(&r.parts[0]), "verify\n\nLaTeX to evaluate: x^2");
    assert_eq!(image_of(&r.parts[1]), ("image/png".to_string(), "CCCC".to_string()));

    let r = client.content_request("ping");
    assert_eq!((r.temperature_tenths, r.max_output_tokens, r.parts.len()), (7, 4096, 1));
    assert_eq!(text_of(&r.parts[0]), "ping");
}

#[test]
fn structured_verification_prompt_by_language() {
    let en = ApiClient::build_verification_prompt("a+b", "en");
    assert!(en.starts_with("You are a strict verifier. Compare the provided LaTeX with the image."));
    assert!(en.contains("Return a strict JSON: {\n  \"status\": \"error|warning|ok\",\n  \"issues\": [{\"category\": \"missing_term|"));
    assert!(en.contains("\"terms_total\": n}\n}.\nRules:\n- status=error if ANY mismatch"));
    assert!(en.ends_with(
        "- Be concise but precise.\nOutput language: English for 'issues[*].message'. Keys remain English.\nLaTeX to verify:\na+b"
    ));
    let zh = ApiClient::build_verification_prompt("a+b", "zh-CN");
    assert!(zh.ends_with(
        "\nOutput language: Simplified Chinese for 'issues[*].message'. Keys remain English.\nLaTeX to verify:\na+b"
    ));
    let client = ApiClient::new(config("https://h", ""));
    let r = client.structured_verification_request("a+b", "DDDD", "zh-CN");
    assert_eq!(text_of(&r.parts[0]), zh);
    assert_eq!(image_of(&r.parts[1]).1, "DDDD");
    assert_eq!(r.temperature_tenths, 2);
}

#[test]
fn messages_of_the_errors() {
    assert_eq!(LlmError::SendFailed.message(), "Failed to send request to Gemini API");
    assert_eq!(LlmError::ReadFailed.message(), "Failed to read response text");
    assert_eq!(
        status_error(429, "Too Many Requests", "slow down").message(),
        "API request failed with status 429 Too Many Requests: slow down"
    );
    assert_eq!(
        LlmError::MalformedResponse { purpose: Purpose::LatexExtraction }.message(),
        "Failed to parse Gemini response for latex extraction"
    );
    assert_eq!(
        LlmError::MalformedResponse { purpose: Purpose::VerificationWithImage }.message(),
        "Failed to parse Gemini response for verification with image"
    );
    assert_eq!(LlmError::NoText { purpose: Purpose::Analysis }.message(), "Gemini returned no text for analysis");
    assert_eq!(
        LlmError::NoText { purpose: Purpose::Verification }.message(),
        "Gemini returned no text for verification"
    );
    assert_eq!(
        LlmError::NoContent { finish_reason: "SAFETY".to_string(), raw: "{}".to_string() }.message(),
        "Gemini returned no text (finishReason: SAFETY). Raw: {}"
    );
    assert_eq!(
        LlmError::NotJson { raw: "<html>".to_string() }.message(),
        "Failed to parse Gemini API response JSON: <html>"
    );
    let payload = |kind| LlmError::Payload { kind, clean: "x".to_string() }.message();
    assert_eq!(payload(PayloadKind::LatexOnly), "Failed to parse latex-only content: x");
    assert_eq!(payload(PayloadKind::Analysis), "Failed to parse analysis content: x");
    assert_eq!(payload(PayloadKind::VerificationResult), "Failed to parse verification content from API: x");
    assert_eq!(payload(PayloadKind::Verification), "Failed to parse verification: x");
    assert_eq!(LlmError::Other { message: "LaTeX task failed: cancelled".to_string() }.message(), "LaTeX task failed: cancelled");
}

#[test]
fn client_keeps_its_configuration() {
    let c = Config::default().to_llm_config();
    let client = ApiClient::new(c.clone());
    assert_eq!(client.config.model_name, c.model_name);
    assert_eq!(client.config.max_retries, 2);
}
