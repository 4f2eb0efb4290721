use formula_scanner::data_models::{
    Verification, VerificationCoverage, VerificationIssue, VerificationResult,
};
use formula_scanner::scoring::{
    compute_verification_result_from_struct, percentage, report_for, score, score_from_coverage,
    score_from_status,
};

fn coverage(sm: u32, st: u32, tm: u32, tt: u32) -> VerificationCoverage {
    VerificationCoverage { symbols_matched: sm, symbols_total: st, terms_matched: tm, terms_total: tt }
}

fn issues(n: usize) -> Vec<VerificationIssue> {
    (0..n)
        .map(|i| VerificationIssue { category: format!("c{}", i), message: format!("m{}", i) })
        .collect()
}

fn verification(status: &str, n: usize, coverage: Option<VerificationCoverage>) -> Verification {
    Verification { status: status.to_string(), issues: issues(n), coverage }
}

#[test]
fn coverage_score_of_eight_tenths_and_two_quarters() {
    assert_eq!(percentage(8, 10), 80);
    assert_eq!(percentage(2, 4), 50);
    assert_eq!(score_from_coverage(&coverage(8, 10, 2, 4)), 73);
    let r = compute_verification_result_from_struct(&verification("error", 3, Some(coverage(8, 10, 2, 4))));
    assert_eq!(r.confidence_score, 73);
}

#[test]
fn percentages_round_to_nearest_with_halves_upward() {
    assert_eq!(percentage(0, 0), 100);
    assert_eq!(percentage(5, 0), 100);
    assert_eq!(percentage(0, 7), 0);
    assert_eq!(percentage(1, 3), 33);
    assert_eq!(percentage(2, 3), 67);
    assert_eq!(percentage(1, 8), 13);
    assert_eq!(percentage(1, 200), 1);
    assert_eq!(percentage(1, 201), 0);
    assert_eq!(percentage(20, 10), 200);
    assert_eq!(percentage(u32::MAX, 1), 100 * (u32::MAX as u64));
    assert_eq!(percentage(u32::MAX, u32::MAX), 100);
}

#[test]
fn combined_score_is_weighted_and_clamped() {
    assert_eq!(score_from_coverage(&coverage(0, 0, 0, 0)), 100);
    assert_eq!(score_from_coverage(&coverage(1, 8, 4, 4)), 35);
    assert_eq!(score_from_coverage(&coverage(0, 5, 0, 5)), 0);
    assert_eq!(score_from_coverage(&coverage(5, 5, 0, 5)), 75);
    assert_eq!(score_from_coverage(&coverage(0, 5, 5, 5)), 25);
    assert_eq!(score_from_coverage(&coverage(20, 10, 1, 1)), 100);
    assert_eq!(score_from_coverage(&coverage(u32::MAX, 1, u32::MAX, 1)), 100);
}

#[test]
fn heuristic_score_by_status_and_issue_count() {
    assert_eq!(score_from_status("ok", 0), 100);
    assert_eq!(score_from_status("warning", 6), 68);
    assert_eq!(score_from_status("error", 20), 10);
    assert_eq!(score_from_status("ok", 50), 100);
    assert_eq!(score_from_status("warning", 0), 80);
    assert_eq!(score_from_status("warning", 10), 60);
    assert_eq!(score_from_status("warning", usize::MAX), 60);
    assert_eq!(score_from_status("error", 0), 60);
    assert_eq!(score_from_status("error", 9), 15);
    assert_eq!(score_from_status("error", 10), 10);
    assert_eq!(score_from_status("anything else", 2), 50);
    assert_eq!(score_from_status("OK", 0), 60);
    assert_eq!(compute_verification_result_from_struct(&verification("warning", 6, None)).confidence_score, 68);
}

#[test]
fn report_without_issues_goes_by_status() {
    assert_eq!(report_for(&verification("ok", 0, None)), "LaTeX 完全匹配原始公式。");
    assert_eq!(report_for(&verification("warning", 0, None)), "存在版式/排版差异，但不影响数学含义。");
    assert_eq!(
        report_for(&verification("error", 0, None)),
        "存在与原图不一致的内容，请检查符号、上下标与项是否匹配。"
    );
    assert_eq!(
        report_for(&verification("", 0, None)),
        "存在与原图不一致的内容，请检查符号、上下标与项是否匹配。"
    );
}

#[test]
fn report_lists_the_issues_one_per_line() {
    assert_eq!(report_for(&verification("ok", 1, None)), "发现以下差异：\n- [c0] m0");
    assert_eq!(
        report_for(&verification("error", 3, None)),
        "发现以下差异：\n- [c0] m0\n- [c1] m1\n- [c2] m2"
    );
    let ten = report_for(&verification("error", 10, None));
    assert!(ten.ends_with("\n- [c9] m9"));
    assert_eq!(ten.lines().count(), 11);
}

#[test]
fn report_leaves_out_what_follows_the_tenth_issue() {
    let r = report_for(&verification("error", 12, None));
    assert!(r.starts_with("发现以下差异：\n- [c0] m0\n"));
    assert!(r.ends_with("\n- [c9] m9\n(2 more omitted)"));
    assert!(!r.contains("c10"));
    assert_eq!(r.lines().count(), 12);
    let big = report_for(&verification("warning", 133, None));
    assert!(big.ends_with("\n(123 more omitted)"));
}

#[test]
fn score_takes_the_fallback_without_a_structured_verification() {
    let fallback = VerificationResult { confidence_score: 55, verification_report: "from the model".to_string() };
    let r = score(None, fallback.clone());
    assert_eq!((r.confidence_score, r.verification_report.as_str()), (55, "from the model"));
    let v = verification("ok", 0, None);
    let r = score(Some(&v), fallback);
    assert_eq!((r.confidence_score, r.verification_report.as_str()), (100, "LaTeX 完全匹配原始公式。"));
}

#[test]
fn degraded_result_is_zero_with_the_fixed_report() {
    let r = VerificationResult::degraded();
    assert_eq!(r.confidence_score, 0);
    assert_eq!(r.verification_report, "verification failed");
}
