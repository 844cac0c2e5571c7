//! The lookup pipeline: the fixed structural selectors, the two
//! extraction paths, and the mapping from fetch outcomes to printed text.

use vstd::prelude::*;
use vstd::string::StringExecFns;
use crate::classify::{contains_cjk, is_chinese};
use crate::page::{selected_first_texts, selected_pair_texts, select_first_texts,
    select_pair_texts};
use crate::rows::{row_entries, present_texts, format_spec, collect_row_entries,
    collect_present_texts, format_output};
use crate::text::seq_views;

verus! {

/// The translation entries on the Chinese-query path: the anchor text of
/// each multi-column word-explanation row that has one, in document
/// order, unmodified.
pub open spec fn chinese_entries(html: Seq<char>) -> Seq<Seq<char>> {
    present_texts(selected_first_texts(html, "li.word-exp-ce.mcols-layout"@, "a.point"@))
}

/// The phonetics entries on the non-Chinese path: for each phonetic row
/// of the first translation container that has both a label and a
/// transcription, the two trimmed and joined with a single space.
pub open spec fn phonetic_entries(html: Seq<char>) -> Seq<Seq<char>> {
    row_entries(
        selected_pair_texts(html, "div.trans-container"@, 0, "div.per-phone"@, "span"@,
            "span.phonetic"@),
        " "@,
    )
}

/// The translation entries on the non-Chinese path: for each
/// word-explanation row of the second translation container that has
/// both a part of speech and a translation, the two trimmed and joined
/// with ": ".
pub open spec fn definition_entries(html: Seq<char>) -> Seq<Seq<char>> {
    row_entries(
        selected_pair_texts(html, "div.trans-container"@, 1, "li.word-exp"@, "span.pos"@,
            "span.trans"@),
        ": "@,
    )
}

/// The output block extracted from a fetched result page: the Chinese
/// path collects translations alone; the other path collects phonetics
/// from the first container and definitions from the second.
pub open spec fn extraction_output(word: Seq<char>, html: Seq<char>) -> Seq<char> {
    if contains_cjk(word) {
        format_spec(Seq::empty(), chinese_entries(html))
    } else {
        format_spec(phonetic_entries(html), definition_entries(html))
    }
}

/// Extracts and formats the result block from a fetched result page.
/// The result is a function of the query and the page text alone, so
/// repeated runs on one fetched document give identical output.
pub fn extract_translation(word: &str, html: &str) -> (r: String)
    ensures
        r@ == extraction_output(word@, html@),
{
    if is_chinese(word) {
        let rows = select_first_texts(html, "li.word-exp-ce.mcols-layout", "a.point");
        let entries = collect_present_texts(&rows);
        let phonetics: Vec<String> = Vec::new();
        proof {
            assert(seq_views(phonetics@) =~= Seq::<Seq<char>>::empty());
        }
        format_output(&phonetics, &entries)
    } else {
        let phones = select_pair_texts(html, "div.trans-container", 0, "div.per-phone", "span",
            "span.phonetic");
        let phonetics = collect_row_entries(&phones, " ");
        let exps = select_pair_texts(html, "div.trans-container", 1, "li.word-exp", "span.pos",
            "span.trans");
        let translations = collect_row_entries(&exps, ": ");
        format_output(&phonetics, &translations)
    }
}

/// Repeated extraction from one fetched document is deterministic: any
/// two outputs that `extract_translation`'s contract admits for the same
/// query and page text are equal.
pub proof fn lemma_extraction_deterministic(
    word: Seq<char>,
    html: Seq<char>,
    r1: Seq<char>,
    r2: Seq<char>,
)
    requires
        r1 == extraction_output(word, html),
        r2 == extraction_output(word, html),
    ensures
        r1 == r2,
{
}

/// The outcome of one fetch of the result page, as the surrounding
/// program reports it: the decoded page text, a transport failure, or a
/// body that could not be decoded as text.
pub enum LookupOutcome {
    Fetched(String),
    FetchFailed,
    ReadFailed,
}

/// The text printed for a query and a fetch outcome: the extracted block
/// on success, one fixed sentinel for each failure kind.
pub open spec fn outcome_output(word: Seq<char>, outcome: LookupOutcome) -> Seq<char> {
    match outcome {
        LookupOutcome::Fetched(html) => extraction_output(word, html@),
        LookupOutcome::FetchFailed => "Failed to fetch translation."@,
        LookupOutcome::ReadFailed => "Failed to read response."@,
    }
}

/// Maps a fetch outcome to the printed text.
pub fn render_outcome(word: &str, outcome: &LookupOutcome) -> (r: String)
    ensures
        r@ == outcome_output(word@, *outcome),
{
    match outcome {
        LookupOutcome::Fetched(html) => extract_translation(word, html.as_str()),
        LookupOutcome::FetchFailed => "Failed to fetch translation.".to_owned(),
        LookupOutcome::ReadFailed => "Failed to read response.".to_owned(),
    }
}

/// The request URL for a query: the fixed result endpoint with the raw
/// query substituted and the fixed target-language parameter.
pub fn request_url(word: &str) -> (r: String)
    ensures
        r@ == "https://www.youdao.com/result?word="@ + word@ + "&lang=en"@,
{
    let mut r = String::from_str("https://www.youdao.com/result?word=");
    r.append(word);
    r.append("&lang=en");
    r
}

/// The message printed when no query argument was given.
pub fn missing_query_message() -> (r: String)
    ensures
        r@ == "Please provide a word to translate"@,
{
    "Please provide a word to translate".to_owned()
}

} // verus!
