use gba_core::pr::{extract_pr_url, pr_outcome};
use gba_core::review::{
    parse_block_format, parse_inline_issue, parse_review_issues, parse_severity, severity_of_lowered, Severity,
};
use gba_core::run::Outcome;
use gba_core::verdict::{check_verification_passed, verdict_of_lowered};

#[test]
fn test_should_parse_review_issues_block_format() {
    let output = r"
Here are the issues found:

- severity: error
  file: src/main.rs
  description: Missing error handling for database connection

- severity: warning
  file: src/lib.rs
  description: Consider using a more descriptive variable name

- severity: suggestion
  file: tests/integration.rs
  description: Add more edge case tests
";

    let issues = parse_review_issues(output);

    assert_eq!(issues.len(), 3);
    assert_eq!(issues[0].severity, Severity::Error);
    assert_eq!(issues[0].file, "src/main.rs");
    assert!(issues[0].description.contains("Missing error handling"));

    assert_eq!(issues[1].severity, Severity::Warning);
    assert_eq!(issues[1].file, "src/lib.rs");

    assert_eq!(issues[2].severity, Severity::Suggestion);
    assert_eq!(issues[2].file, "tests/integration.rs");
}

#[test]
fn test_should_parse_review_issues_inline_format() {
    let output = r"
Review complete. Issues:
- [error] src/main.rs: Missing error handling
- [warning] src/config.rs: Unused import
- [suggestion] src/lib.rs: Consider extracting this function
";

    let issues = parse_review_issues(output);

    assert_eq!(issues.len(), 3);
    assert_eq!(issues[0].severity, Severity::Error);
    assert_eq!(issues[0].file, "src/main.rs");
    assert_eq!(issues[0].description, "Missing error handling");

    assert_eq!(issues[1].severity, Severity::Warning);
    assert_eq!(issues[1].file, "src/config.rs");

    assert_eq!(issues[2].severity, Severity::Suggestion);
}

#[test]
fn test_should_parse_no_issues() {
    let output = r"
Code review complete. No issues found. The implementation looks good
and follows all the project conventions.
";

    let issues = parse_review_issues(output);
    assert!(issues.is_empty());
}

#[test]
fn test_should_parse_empty_output() {
    let issues = parse_review_issues("");
    assert!(issues.is_empty());
}

#[test]
fn test_should_parse_severity_variants() {
    assert_eq!(parse_severity("error"), Some(Severity::Error));
    assert_eq!(parse_severity("Error"), Some(Severity::Error));
    assert_eq!(parse_severity("ERROR"), Some(Severity::Error));
    assert_eq!(parse_severity("warning"), Some(Severity::Warning));
    assert_eq!(parse_severity("warn"), Some(Severity::Warning));
    assert_eq!(parse_severity("suggestion"), Some(Severity::Suggestion));
    assert_eq!(parse_severity("info"), Some(Severity::Suggestion));
    assert_eq!(parse_severity("note"), Some(Severity::Suggestion));
    assert_eq!(parse_severity("unknown"), None);
}

#[test]
fn test_should_extract_pr_url() {
    let output = r#"
PR created successfully!
https://github.com/org/repo/pull/42

Done.
"#;
    let url = extract_pr_url(output);
    assert_eq!(url.as_deref(), Some("https://github.com/org/repo/pull/42"));
}

#[test]
fn test_should_extract_pr_url_with_surrounding_text() {
    let output = "Created PR: https://github.com/user/project/pull/123 successfully";
    let url = extract_pr_url(output);
    assert_eq!(
        url.as_deref(),
        Some("https://github.com/user/project/pull/123")
    );
}

#[test]
fn test_should_return_none_for_no_pr_url() {
    let output = "No PR was created. Something went wrong.";
    let url = extract_pr_url(output);
    assert!(url.is_none());
}

#[test]
fn test_should_return_none_for_non_pr_github_url() {
    let output = "See https://github.com/org/repo/issues/5 for details";
    let url = extract_pr_url(output);
    assert!(url.is_none());
}

#[test]
fn test_should_check_verification_passed() {
    let pass_output = "All tests passed successfully. Verification complete.";
    assert!(check_verification_passed(false, pass_output));

    let fail_output = "Test failed: expected 4 but got 5. Error in module X.";
    assert!(!check_verification_passed(false, fail_output));

    let ambiguous_output = "Tests passed with some warnings.";
    assert!(check_verification_passed(false, ambiguous_output));
}

#[test]
fn test_should_parse_inline_issue_correctly() {
    let line = "- [error] src/main.rs: Missing error handling";
    let issue = parse_inline_issue(line.trim());
    assert!(issue.is_some());
    let issue = issue.expect("should parse");
    assert_eq!(issue.severity, Severity::Error);
    assert_eq!(issue.file, "src/main.rs");
    assert_eq!(issue.description, "Missing error handling");
}

#[test]
fn test_should_reject_malformed_inline_issue() {
    assert!(parse_inline_issue("not an issue").is_none());
    assert!(parse_inline_issue("- [error]").is_none());
    assert!(parse_inline_issue("- [error] :").is_none());
    assert!(parse_inline_issue("- [unknown] file: desc").is_none());
}

#[test]
fn block_layout_keeps_source_order_and_fields() {
    let output = "severity: warning\nfile: b.rs\ndescription: second\n- severity: ERROR\n  file:  a.rs \n  description: first one\nseverity: note\nfile: c.rs\ndescription: third";
    let issues = parse_review_issues(output);
    assert_eq!(issues.len(), 3);
    assert_eq!(issues[0].severity, Severity::Warning);
    assert_eq!(issues[0].file, "b.rs");
    assert_eq!(issues[0].description, "second");
    assert_eq!(issues[1].severity, Severity::Error);
    assert_eq!(issues[1].file, "a.rs");
    assert_eq!(issues[1].description, "first one");
    assert_eq!(issues[2].severity, Severity::Suggestion);
    assert_eq!(issues[2].file, "c.rs");
    assert_eq!(issues[2].description, "third");
}

#[test]
fn block_layout_drops_unknown_severity_and_incomplete_records() {
    let output = "severity: fatal\nfile: x.rs\ndescription: dropped\nseverity: error\nfile: y.rs\nseverity: warning\nfile: z.rs\ndescription: kept";
    let issues = parse_block_format(output);
    assert_eq!(issues.len(), 1);
    assert_eq!(issues[0].file, "z.rs");
    assert_eq!(issues[0].description, "kept");
}

#[test]
fn block_layout_requires_non_empty_fields() {
    let output = "severity: error\nfile:\ndescription: nothing named";
    assert!(parse_block_format(output).is_empty());
}

#[test]
fn inline_fallback_parses_single_issue() {
    let issues = parse_review_issues("- [error] a.rs: bad thing");
    assert_eq!(issues.len(), 1);
    assert_eq!(issues[0].severity, Severity::Error);
    assert_eq!(issues[0].file, "a.rs");
    assert_eq!(issues[0].description, "bad thing");
}

#[test]
fn block_layout_wins_over_inline_lines() {
    let output = "- [error] a.rs: inline\nseverity: warning\nfile: b.rs\ndescription: block";
    let issues = parse_review_issues(output);
    assert_eq!(issues.len(), 1);
    assert_eq!(issues[0].file, "b.rs");
}

#[test]
fn inline_issue_handles_crlf_lines() {
    let issues = parse_review_issues("- [warn] x.rs: one\r\n- [info] y.rs: two\r\n");
    assert_eq!(issues.len(), 2);
    assert_eq!(issues[0].severity, Severity::Warning);
    assert_eq!(issues[0].description, "one");
    assert_eq!(issues[1].severity, Severity::Suggestion);
    assert_eq!(issues[1].file, "y.rs");
}

#[test]
fn pr_url_stops_at_quote_and_parenthesis() {
    assert_eq!(
        extract_pr_url("see (https://github.com/a/b/pull/7) now").as_deref(),
        Some("https://github.com/a/b/pull/7")
    );
    assert_eq!(
        extract_pr_url("url: \"https://github.com/a/b/pull/8\"").as_deref(),
        Some("https://github.com/a/b/pull/8")
    );
}

#[test]
fn pr_url_takes_first_matching_line() {
    let output = "https://github.com/o/r/issues/1\nhttps://github.com/o/r/pull/2\nhttps://github.com/o/r/pull/3";
    assert_eq!(extract_pr_url(output).as_deref(), Some("https://github.com/o/r/pull/2"));
}

#[test]
fn pr_outcome_reports_missing_url_with_transcript() {
    match pr_outcome("no link here") {
        Outcome::PrFailed(d) => assert_eq!(d, "PR URL not detected in agent output: no link here"),
        other => panic!("unexpected outcome {:?}", other),
    }
    match pr_outcome("done: https://github.com/o/r/pull/9") {
        Outcome::PrCreated(u) => assert_eq!(u, "https://github.com/o/r/pull/9"),
        other => panic!("unexpected outcome {:?}", other),
    }
}

#[test]
fn verification_tie_break() {
    assert!(check_verification_passed(false, "all tests passed"));
    assert!(!check_verification_passed(false, "build failed, error in module X"));
    assert!(check_verification_passed(false, "tests passed with warnings"));
    assert!(check_verification_passed(false, "nothing to report"));
    assert!(!check_verification_passed(true, "all tests passed"));
    assert!(!check_verification_passed(false, "BUILD FAILED"));
}

#[test]
fn verdict_on_lowered_text() {
    assert!(verdict_of_lowered("success"));
    assert!(!verdict_of_lowered("error"));
    assert!(verdict_of_lowered("FAIL"));
}

#[test]
fn severity_of_lowered_words() {
    assert_eq!(severity_of_lowered("  warn "), Some(Severity::Warning));
    assert_eq!(severity_of_lowered("note"), Some(Severity::Suggestion));
    assert_eq!(severity_of_lowered("Error"), None);
}
