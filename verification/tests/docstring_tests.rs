use pydocgen::ast::{Expr, Stmt};
use pydocgen::docstring::{
    clean_docstring, doc_description, doc_summary, first_docstring, trim_by,
};

#[test]
fn trim_by_strips_whitespace_on_both_sides() {
    assert_eq!(trim_by("  \t doc text \n ", None), "doc text");
}

#[test]
fn trim_by_strips_only_the_given_char() {
    assert_eq!(trim_by("``name``", Some('`')), "name");
    assert_eq!(trim_by("  x  ", Some('`')), "  x  ");
}

#[test]
fn trim_by_of_all_stripped_text_is_empty() {
    assert_eq!(trim_by("   \n\t  ", None), "");
    assert_eq!(trim_by("", None), "");
}

#[test]
fn clean_docstring_strips_space_then_double_then_single_quotes() {
    assert_eq!(clean_docstring("  \"'hi there'\"  "), "hi there");
    assert_eq!(clean_docstring("plain"), "plain");
}

#[test]
fn summary_and_description_split_on_first_blank_line() {
    let d = "Summary line.\n\nRest of the\ndescription.";
    assert_eq!(doc_summary(d), "Summary line.");
    assert_eq!(doc_description(d), "Rest of the\ndescription.");
}

#[test]
fn description_is_empty_without_blank_line() {
    let d = "Only a summary.";
    assert_eq!(doc_summary(d), "Only a summary.");
    assert_eq!(doc_description(d), "");
}

#[test]
fn description_starts_after_the_first_blank_line_only() {
    let d = "A.\n\nB.\n\nC.";
    assert_eq!(doc_description(d), "B.\n\nC.");
}

#[test]
fn first_docstring_reads_leading_string_literal() {
    let body = vec![
        Stmt::ExprStmt {
            value: Expr::StrLit { value: "Doc.".to_string(), dump: "Constant".to_string() },
        },
        Stmt::Pass,
    ];
    assert_eq!(first_docstring(&body), Some("Doc.".to_string()));
}

#[test]
fn first_docstring_absent_when_body_opens_otherwise() {
    let body = vec![Stmt::Pass];
    assert_eq!(first_docstring(&body), None);
    assert_eq!(first_docstring(&vec![]), None);
}
