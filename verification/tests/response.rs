use formula_scanner::data_models::Analysis;
use formula_scanner::llm_api::{LlmError, PayloadKind, Purpose};
use formula_scanner::response::{
    analysis_result, clean_response, extraction_result, find_latex_literal, generated_content,
    parsed_or_error, payload_text, response_text, try_relaxed_extract_latex, Candidate,
    ResponseBody, SendOutcome,
};

fn candidates(texts: &[&str], finish: Option<&str>) -> ResponseBody {
    ResponseBody::Candidates {
        candidates: vec![Candidate {
            parts: texts.iter().map(|t| t.to_string()).collect(),
            finish_reason: finish.map(|f| f.to_string()),
        }],
    }
}

#[test]
fn response_text_is_the_body_of_a_success() {
    for status in [200u16, 204, 299] {
        let r = response_text(SendOutcome::Reply {
            status,
            reason: "OK".to_string(),
            body: "{}".to_string(),
        });
        assert_eq!(r.unwrap(), "{}");
    }
}

#[test]
fn response_text_is_an_error_otherwise() {
    for status in [100u16, 199, 300, 404, 429, 500] {
        let r = response_text(SendOutcome::Reply {
            status,
            reason: "Reason".to_string(),
            body: "body".to_string(),
        });
        match r {
            Err(LlmError::Status { status: s, reason, body }) => {
                assert_eq!((s, reason.as_str(), body.as_str()), (status, "Reason", "body"))
            }
            other => panic!("unexpected {:?}", other),
        }
    }
    assert!(matches!(response_text(SendOutcome::SendFailed), Err(LlmError::SendFailed)));
    assert!(matches!(response_text(SendOutcome::ReadFailed), Err(LlmError::ReadFailed)));
}

#[test]
fn payload_is_the_first_text_of_the_first_candidate() {
    let body = candidates(&["first", "second"], None);
    assert_eq!(body.first_text().unwrap(), "first");
    assert_eq!(payload_text(Purpose::Analysis, &body).unwrap(), "first");
    let two = ResponseBody::Candidates {
        candidates: vec![
            Candidate { parts: vec!["a".to_string()], finish_reason: None },
            Candidate { parts: vec!["b".to_string()], finish_reason: None },
        ],
    };
    assert_eq!(payload_text(Purpose::LatexExtraction, &two).unwrap(), "a");
}

#[test]
fn payload_errors_name_the_purpose() {
    let empty = ResponseBody::Candidates { candidates: vec![] };
    let no_parts = candidates(&[], Some("MAX_TOKENS"));
    for body in [&empty, &no_parts] {
        assert!(matches!(
            payload_text(Purpose::Verification, body),
            Err(LlmError::NoText { purpose: Purpose::Verification })
        ));
    }
    for body in [ResponseBody::OtherJson { finish_reason: Some("STOP".to_string()) }, ResponseBody::NotJson] {
        assert!(matches!(
            payload_text(Purpose::LatexExtraction, &body),
            Err(LlmError::MalformedResponse { purpose: Purpose::LatexExtraction })
        ));
    }
}

#[test]
fn generated_content_is_cleaned() {
    let body = candidates(&["```json\n{\"a\": 1}\n```\n"], Some("STOP"));
    assert_eq!(generated_content(&body, "raw").unwrap(), "{\"a\": 1}");
}

#[test]
fn generated_content_errors_report_the_finish_reason() {
    let check = |body: ResponseBody, expected: &str| match generated_content(&body, "RAW") {
        Err(e) => assert_eq!(e.message(), expected),
        Ok(text) => panic!("unexpected {:?}", text),
    };
    check(candidates(&[], Some("SAFETY")), "Gemini returned no text (finishReason: SAFETY). Raw: RAW");
    check(candidates(&[], None), "Gemini returned no text (finishReason: unknown). Raw: RAW");
    check(
        ResponseBody::Candidates { candidates: vec![] },
        "Gemini returned no text (finishReason: unknown). Raw: RAW",
    );
    check(
        ResponseBody::OtherJson { finish_reason: Some("MAX_TOKENS".to_string()) },
        "Gemini returned no text (finishReason: MAX_TOKENS). Raw: RAW",
    );
    check(
        ResponseBody::OtherJson { finish_reason: None },
        "Gemini returned no text (finishReason: unknown). Raw: RAW",
    );
    check(ResponseBody::NotJson, "Failed to parse Gemini API response JSON: RAW");
    assert_eq!(candidates(&[], Some("STOP")).finish_reason(), "STOP");
    assert_eq!(ResponseBody::NotJson.finish_reason(), "unknown");
}

#[test]
fn clean_response_strips_fences_and_whitespace() {
    assert_eq!(clean_response("```json\n{\"latex\": \"x\"}\n```"), "{\"latex\": \"x\"}");
    assert_eq!(clean_response("  \n{\"a\": 1}\t "), "{\"a\": 1}");
    assert_eq!(clean_response("```\ntext\n```"), "text");
    assert_eq!(clean_response("a ```json b ``` c"), "a  b  c");
    assert_eq!(clean_response("````json"), "`");
    assert_eq!(clean_response("``` ```json"), "");
    assert_eq!(clean_response("``` \n ```"), "");
    assert_eq!(clean_response(""), "");
    for t in ["```json```", "x```jso", " `` ` ", "```JSON\n1\n```", "````json", "``````json"] {
        assert_eq!(clean_response(t), t.replace("```json", "").replace("```", "").trim());
    }
}

#[test]
fn lenient_extraction_survives_a_stray_bracket() {
    let input = r#"{"latex": "\\frac{1}{2}"]}"#;
    assert_eq!(find_latex_literal(input).unwrap(), r#""\\frac{1}{2}""#);
    assert_eq!(try_relaxed_extract_latex(input).unwrap(), r"\frac{1}{2}");
    assert_eq!(extraction_result(input, None).unwrap(), r"\frac{1}{2}");
}

#[test]
fn lenient_extraction_tracks_escapes() {
    assert_eq!(
        try_relaxed_extract_latex(r#"{"latex": "a \"quoted\" b\\"} trailing"#).unwrap(),
        "a \"quoted\" b\\"
    );
    assert_eq!(try_relaxed_extract_latex(r#"{"latex" : "x\né""#).unwrap(), "x\né");
    assert_eq!(try_relaxed_extract_latex(r#"junk "latex" junk : 12 "y" more"#).unwrap(), "y");
    assert_eq!(try_relaxed_extract_latex(r#"{"latex": "α→β 验"#.to_string().as_str()), None);
    assert_eq!(try_relaxed_extract_latex(r#"{"latex": "α→β 验"}"#).unwrap(), "α→β 验");
}

#[test]
fn lenient_extraction_gives_nothing_without_a_complete_string() {
    assert_eq!(try_relaxed_extract_latex(""), None);
    assert_eq!(try_relaxed_extract_latex(r#"{"formula": "x"}"#), None);
    assert_eq!(try_relaxed_extract_latex(r#"{"latex" "x"}"#), None);
    assert_eq!(try_relaxed_extract_latex(r#"{"latex": 12}"#), None);
    assert_eq!(try_relaxed_extract_latex(r#"{"latex": "unterminated"#), None);
    assert_eq!(try_relaxed_extract_latex(r#"{"latex": "ends with escape\"#), None);
    assert_eq!(try_relaxed_extract_latex(r#"{"latex": "bad \q escape"}"#), None);
    assert_eq!(find_latex_literal(r#"{"latex": "bad \q escape"}"#).unwrap(), r#""bad \q escape""#);
}

#[test]
fn extraction_result_prefers_the_strict_value() {
    assert_eq!(extraction_result(r#"{"latex": "lenient"}"#, Some("strict".to_string())).unwrap(), "strict");
    match extraction_result("no json here", None) {
        Err(e) => {
            assert!(matches!(e, LlmError::Payload { kind: PayloadKind::LatexOnly, .. }));
            assert_eq!(e.message(), "Failed to parse latex-only content: no json here");
        }
        Ok(text) => panic!("unexpected {:?}", text),
    }
}

#[test]
fn analysis_result_tolerates_an_extraction_payload() {
    let found = (
        "A title".to_string(),
        Analysis::with_summary("summary".to_string()),
    );
    let (title, analysis) = analysis_result(r#"{"latex": "x"}"#, Some(found.clone())).unwrap();
    assert_eq!(title, "Untitled formula");
    assert_eq!(analysis.summary, "");
    assert!(analysis.variables.is_empty() && analysis.terms.is_empty() && analysis.suggestions.is_empty());
    let (title, _) = analysis_result(r#"{"latex": "x"}"#, None).unwrap();
    assert_eq!(title, "Untitled formula");

    let (title, analysis) =
        analysis_result(r#"{"latex": "x", "analysis": {}}"#, Some(found.clone())).unwrap();
    assert_eq!((title.as_str(), analysis.summary.as_str()), ("A title", "summary"));
    let (title, _) = analysis_result(r#"{"title": "A title"}"#, Some(found)).unwrap();
    assert_eq!(title, "A title");
    match analysis_result(r#"{"title": 1}"#, None) {
        Err(e) => assert_eq!(e.message(), "Failed to parse analysis content: {\"title\": 1}"),
        Ok(_) => panic!("unexpected success"),
    }
}

#[test]
fn parsed_or_error_keeps_the_value_or_names_the_payload() {
    assert_eq!(parsed_or_error(PayloadKind::VerificationResult, "c", Some(7u8)).unwrap(), 7);
    match parsed_or_error::<u8>(PayloadKind::Verification, "c", None) {
        Err(e) => assert_eq!(e.message(), "Failed to parse verification: c"),
        Ok(_) => panic!("unexpected success"),
    }
}
