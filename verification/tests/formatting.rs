use youdao_dict::LookupOutcome;
use youdao_dict::missing_query_message;
use youdao_dict::render_outcome;
use youdao_dict::request_url;
use youdao_dict::rows::collect_present_texts;
use youdao_dict::rows::collect_row_entries;
use youdao_dict::rows::format_output;
use youdao_dict::text::join_strs;
use youdao_dict::text::trim_str;

#[test]
fn transport_failure_sentinel() {
    let out = render_outcome("hello", &LookupOutcome::FetchFailed);
    assert_eq!(out, "Failed to fetch translation.");
}

#[test]
fn decode_failure_sentinel() {
    let out = render_outcome("hello", &LookupOutcome::ReadFailed);
    assert_eq!(out, "Failed to read response.");
}

#[test]
fn fetched_outcome_extracts() {
    let page = "<html><body><p>nothing</p></body></html>".to_string();
    let out = render_outcome("hello", &LookupOutcome::Fetched(page));
    assert_eq!(out, "No results.");
}

#[test]
fn missing_query_text() {
    assert_eq!(missing_query_message(), "Please provide a word to translate");
}

#[test]
fn request_url_substitutes_query() {
    assert_eq!(
        request_url("hello"),
        "https://www.youdao.com/result?word=hello&lang=en"
    );
}

#[test]
fn row_entries_skip_incomplete_rows() {
    let rows = vec![
        (Some("UK".to_string()), Some("/a/".to_string())),
        (None, Some("/b/".to_string())),
        (Some("US".to_string()), None),
        (None, None),
        (Some(" AU ".to_string()), Some(" /c/ ".to_string())),
    ];
    let entries = collect_row_entries(&rows, " ");
    assert_eq!(entries, vec!["UK /a/".to_string(), "AU /c/".to_string()]);
}

#[test]
fn row_entries_with_colon_separator() {
    let rows = vec![(Some("n.".to_string()), Some("a test".to_string()))];
    let entries = collect_row_entries(&rows, ": ");
    assert_eq!(entries, vec!["n.: a test".to_string()]);
}

#[test]
fn present_texts_keep_order_and_content() {
    let rows = vec![
        Some(" a ".to_string()),
        None,
        Some("b".to_string()),
    ];
    let texts = collect_present_texts(&rows);
    assert_eq!(texts, vec![" a ".to_string(), "b".to_string()]);
}

#[test]
fn format_both_lists_empty() {
    let none: Vec<String> = Vec::new();
    assert_eq!(format_output(&none, &none), "No results.");
}

#[test]
fn format_phonetics_only() {
    let phonetics = vec!["UK /a/".to_string(), "US /b/".to_string()];
    let none: Vec<String> = Vec::new();
    assert_eq!(format_output(&phonetics, &none), "UK /a/ US /b/");
}

#[test]
fn format_translations_only() {
    let none: Vec<String> = Vec::new();
    let translations = vec!["n.: a".to_string(), "v.: b".to_string()];
    assert_eq!(format_output(&none, &translations), "n.: a\nv.: b");
}

#[test]
fn format_both_lists_present() {
    let phonetics = vec!["UK /a/".to_string()];
    let translations = vec!["n.: a".to_string()];
    assert_eq!(format_output(&phonetics, &translations), "UK /a/\nn.: a");
}

#[test]
fn format_empty_joined_phonetics_falls_back_to_translations() {
    // A non-empty list whose joined text is empty is treated by the
    // joined text, not by the list: the output is the other part alone.
    let phonetics = vec!["".to_string()];
    let none: Vec<String> = Vec::new();
    assert_eq!(format_output(&phonetics, &none), "");
}

#[test]
fn join_with_separator() {
    let items = vec!["a".to_string(), "b".to_string(), "c".to_string()];
    assert_eq!(join_strs(&items, ", "), "a, b, c");
}

#[test]
fn join_single_and_empty() {
    let one = vec!["alone".to_string()];
    assert_eq!(join_strs(&one, " "), "alone");
    let none: Vec<String> = Vec::new();
    assert_eq!(join_strs(&none, " "), "");
}

#[test]
fn trim_removes_unicode_whitespace() {
    assert_eq!(trim_str(" \t\u{3000}abc\u{00a0}\n"), "abc");
    assert_eq!(trim_str("abc"), "abc");
    assert_eq!(trim_str("  "), "");
    assert_eq!(trim_str(""), "");
    assert_eq!(trim_str("a b"), "a b");
}
