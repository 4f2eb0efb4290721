//! The confidence score and the report derived from a structured
//! verification.
//!
//! With coverage counts the score is the weighted mean of two percentages,
//! each rounded to the nearest integer, halves upward. Without them it is
//! read off the status and the number of issues.

use vstd::prelude::*;
use vstd::string::*;

use crate::data_models::{
    Verification, VerificationCoverage, VerificationIssue, VerificationIssueView,
    VerificationResult, VerificationResultView, VerificationView,
};
use crate::text::{decimal, push_decimal, str_eq};

verus! {

/// The report for a formula that matches its image exactly.
pub const REPORT_EXACT_MATCH: &'static str = "LaTeX 完全匹配原始公式。";

/// The line that opens a report which lists issues.
pub const REPORT_HEADER: &'static str = "发现以下差异：\n";

/// The report for status `warning` without any issue.
pub const REPORT_LAYOUT_ONLY: &'static str = "存在版式/排版差异，但不影响数学含义。";

/// The report for any other status without any issue.
pub const REPORT_MISMATCH: &'static str =
    "存在与原图不一致的内容，请检查符号、上下标与项是否匹配。";

/// The report of a verification that could not be had.
pub const REPORT_VERIFICATION_FAILED: &'static str = "verification failed";

/// The most issues a report lists.
pub const REPORT_ISSUE_LIMIT: usize = 10;

/// `100 * matched / total` rounded to the nearest integer, halves upward; 100
/// where there is nothing to match.
pub open spec fn ratio_score(matched: nat, total: nat) -> nat {
    if total == 0 {
        100
    } else {
        (200 * matched + total) / (2 * total)
    }
}

/// `0.75 * symbol_score + 0.25 * term_score` rounded to the nearest integer,
/// halves upward, and held to at most 100.
pub open spec fn combined_score(symbol_score: nat, term_score: nat) -> nat {
    let mean = (3 * symbol_score + term_score + 2) / 4;
    if mean > 100 {
        100
    } else {
        mean
    }
}

/// The score that coverage counts give.
pub open spec fn coverage_score(coverage: VerificationCoverage) -> nat {
    combined_score(
        ratio_score(coverage.symbols_matched as nat, coverage.symbols_total as nat),
        ratio_score(coverage.terms_matched as nat, coverage.terms_total as nat),
    )
}

/// The lesser of two numbers.
pub open spec fn at_most(n: nat, cap: nat) -> nat {
    if n < cap {
        n
    } else {
        cap
    }
}

/// The score read off a status and a number of issues.
pub open spec fn heuristic_score(status: Seq<char>, issues: nat) -> nat {
    if status == "ok"@ {
        100
    } else if status == "warning"@ {
        (80 - at_most(2 * issues, 20)) as nat
    } else {
        (60 - at_most(5 * issues, 50)) as nat
    }
}

/// The confidence score of a structured verification.
pub open spec fn score_of(verification: VerificationView) -> nat {
    match verification.coverage {
        Some(coverage) => coverage_score(coverage),
        None => heuristic_score(verification.status, verification.issues.len()),
    }
}

/// The line of a report that states one issue.
pub open spec fn issue_line(issue: VerificationIssueView) -> Seq<char> {
    "- ["@ + issue.category + "] "@ + issue.message
}

/// The lines of the first `count` issues, a line break between any two.
pub open spec fn issue_lines(issues: Seq<VerificationIssueView>, count: nat) -> Seq<char>
    decreases count,
{
    if count == 0 {
        Seq::empty()
    } else if count == 1 {
        issue_line(issues[0])
    } else {
        issue_lines(issues, (count - 1) as nat) + "\n"@ + issue_line(issues[count - 1])
    }
}

/// The note that says how many issues a report leaves out.
pub open spec fn omitted_note(omitted: nat) -> Seq<char> {
    "("@ + decimal(omitted) + " more omitted)"@
}

/// The report of a structured verification.
pub open spec fn report_text(verification: VerificationView) -> Seq<char> {
    let issues = verification.issues;
    if issues.len() == 0 {
        if verification.status == "ok"@ {
            REPORT_EXACT_MATCH@
        } else if verification.status == "warning"@ {
            REPORT_LAYOUT_ONLY@
        } else {
            REPORT_MISMATCH@
        }
    } else if issues.len() <= REPORT_ISSUE_LIMIT {
        REPORT_HEADER@ + issue_lines(issues, issues.len())
    } else {
        REPORT_HEADER@ + issue_lines(issues, REPORT_ISSUE_LIMIT as nat) + "\n"@ + omitted_note(
            (issues.len() - REPORT_ISSUE_LIMIT) as nat,
        )
    }
}

/// What scoring a structured verification gives.
pub open spec fn scored(verification: VerificationView) -> VerificationResultView {
    VerificationResultView {
        confidence_score: score_of(verification) as u8,
        verification_report: report_text(verification),
    }
}

/// What stands for the result of a verification that could not be had:
/// score 0 and a fixed report.
pub open spec fn degraded_result() -> VerificationResultView {
    VerificationResultView {
        confidence_score: 0,
        verification_report: REPORT_VERIFICATION_FAILED@,
    }
}

/// A rounded percentage is the integer nearest to the exact quotient: the
/// two differ by at most one half, and a half is rounded upward.
pub proof fn lemma_ratio_score_is_nearest(matched: nat, total: nat)
    requires
        total > 0,
    ensures
        2 * total * ratio_score(matched, total) <= 200 * matched + total,
        200 * matched + total < 2 * total * (ratio_score(matched, total) + 1),
{
    let d = (2 * total) as int;
    let x = (200 * matched + total) as int;
    vstd::arithmetic::div_mod::lemma_fundamental_div_mod(x, d);
    vstd::arithmetic::div_mod::lemma_mod_bound(x, d);
    assert(x == d * (x / d) + x % d);
    assert(2 * total * ratio_score(matched, total) == d * (x / d)) by (nonlinear_arith)
        requires
            d == 2 * total,
            ratio_score(matched, total) == x / d,
    ;
    assert(2 * total * (ratio_score(matched, total) + 1) == d * (x / d) + d) by (nonlinear_arith)
        requires
            d == 2 * total,
            ratio_score(matched, total) == x / d,
    ;
}

/// A matched count within its total gives a percentage within 0 and 100.
pub proof fn lemma_ratio_score_bound(matched: nat, total: nat)
    requires
        matched <= total,
    ensures
        ratio_score(matched, total) <= 100,
{
    if total > 0 {
        lemma_ratio_score_is_nearest(matched, total);
        let r = ratio_score(matched, total);
        if r > 100 {
            assert(2 * total * r >= 2 * total * 101) by (nonlinear_arith)
                requires
                    r >= 101,
                    total > 0,
            ;
        }
    }
}

/// Every score lies within 0 and 100, whatever the verification holds.
pub proof fn lemma_score_within_range(verification: VerificationView)
    ensures
        score_of(verification) <= 100,
{
}

/// The score that coverage counts give.
pub fn score_from_coverage(coverage: &VerificationCoverage) -> (score: u8)
    ensures
        score == coverage_score(*coverage),
        score <= 100,
{
    let symbols = percentage(coverage.symbols_matched, coverage.symbols_total);
    let terms = percentage(coverage.terms_matched, coverage.terms_total);
    let mean: u64 = (3 * symbols + terms + 2) / 4;
    if mean > 100 {
        100
    } else {
        mean as u8
    }
}

/// `100 * matched / total` rounded to the nearest integer, halves upward.
pub fn percentage(matched: u32, total: u32) -> (score: u64)
    ensures
        score == ratio_score(matched as nat, total as nat),
        score <= 201 * 0x1_0000_0000,
{
    if total == 0 {
        100
    } else {
        let m: u64 = matched as u64;
        let t: u64 = total as u64;
        let score = (200 * m + t) / (2 * t);
        assert(score <= 200 * m + t) by (nonlinear_arith)
            requires
                score == (200 * m + t) / (2 * t),
                t > 0,
        ;
        score
    }
}

/// The score read off a status and a number of issues.
pub fn score_from_status(status: &str, issues: usize) -> (score: u8)
    ensures
        score == heuristic_score(status@, issues as nat),
        score <= 100,
{
    if str_eq(status, "ok") {
        100
    } else if str_eq(status, "warning") {
        if issues >= 10 {
            60
        } else {
            let penalty: u8 = (2 * issues) as u8;
            80 - penalty
        }
    } else {
        if issues >= 10 {
            10
        } else {
            let penalty: u8 = (5 * issues) as u8;
            60 - penalty
        }
    }
}

/// Appends the report line of one issue.
fn push_issue_line(out: &mut String, issue: &VerificationIssue)
    ensures
        final(out)@ == old(out)@ + issue_line(issue@),
{
    out.append("- [");
    out.append(issue.category.as_str());
    out.append("] ");
    out.append(issue.message.as_str());
    assert(out@ =~= old(out)@ + issue_line(issue@));
}

/// The report of a structured verification.
pub fn report_for(verification: &Verification) -> (report: String)
    ensures
        report@ == report_text(verification@),
{
    let n = verification.issues.len();
    if n == 0 {
        if str_eq(verification.status.as_str(), "ok") {
            return String::from_str(REPORT_EXACT_MATCH);
        } else if str_eq(verification.status.as_str(), "warning") {
            return String::from_str(REPORT_LAYOUT_ONLY);
        } else {
            return String::from_str(REPORT_MISMATCH);
        }
    }
    let ghost issues = verification@.issues;
    let shown: usize = if n > REPORT_ISSUE_LIMIT {
        REPORT_ISSUE_LIMIT
    } else {
        n
    };
    let mut report = String::from_str(REPORT_HEADER);
    push_issue_line(&mut report, &verification.issues[0]);
    let mut i: usize = 1;
    assert(report@ =~= REPORT_HEADER@ + issue_lines(issues, 1));
    while i < shown
        invariant
            1 <= i <= shown <= n,
            n == verification.issues.len(),
            issues == verification@.issues,
            report@ == REPORT_HEADER@ + issue_lines(issues, i as nat),
        decreases shown - i,
    {
        report.append("\n");
        push_issue_line(&mut report, &verification.issues[i]);
        assert(report@ =~= REPORT_HEADER@ + issue_lines(issues, (i + 1) as nat));
        i = i + 1;
    }
    if n > REPORT_ISSUE_LIMIT {
        report.append("\n");
        report.append("(");
        push_decimal(&mut report, (n - REPORT_ISSUE_LIMIT) as u64);
        report.append(" more omitted)");
        assert(report@ =~= report_text(verification@));
    }
    report
}

/// The confidence score and the report of a structured verification.
pub fn compute_verification_result_from_struct(verification: &Verification) -> (result:
    VerificationResult)
    ensures
        result@ == scored(verification@),
        result.confidence_score <= 100,
{
    let score = match &verification.coverage {
        Some(coverage) => score_from_coverage(coverage),
        None => score_from_status(verification.status.as_str(), verification.issues.len()),
    };
    VerificationResult { confidence_score: score, verification_report: report_for(verification) }
}

/// The result of a verification: the score and the report of the
/// structured verification where there is one, else the fallback.
pub fn score(verification: Option<&Verification>, fallback: VerificationResult) -> (result:
    VerificationResult)
    ensures
        result@ == match verification {
            Some(structured) => scored(structured@),
            None => fallback@,
        },
        verification is Some ==> result.confidence_score <= 100,
{
    match verification {
        Some(structured) => compute_verification_result_from_struct(structured),
        None => fallback,
    }
}

impl VerificationResult {
    /// What stands for the result of a verification that could not be had.
    pub fn degraded() -> (result: VerificationResult)
        ensures
            result@ == degraded_result(),
    {
        VerificationResult {
            confidence_score: 0,
            verification_report: String::from_str(REPORT_VERIFICATION_FAILED),
        }
    }
}

} // verus!
