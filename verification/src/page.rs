//! Trusted boundary to the HTML parsing and CSS selection engine.
//!
//! Parsing a markup string and walking it with fixed CSS selectors is a
//! pure computation on the strings involved, so the rows each query
//! yields are given names here; everything done with the rows afterwards
//! is verified against those names.

use vstd::prelude::*;
use crate::rows::{opts_view, rows_view};

verus! {

#[verifier::external_type_specification]
#[verifier::external_body]
pub struct ExSelector(scraper::Selector);

#[verifier::external_type_specification]
#[verifier::external_body]
pub struct ExElementRef<'a>(scraper::ElementRef<'a>);

/// For each element of the parsed markup matching `row_sel`, in document
/// order: the flattened text of its first descendant matching `item_sel`,
/// or nothing when no descendant matches.
pub uninterp spec fn selected_first_texts(
    html: Seq<char>,
    row_sel: Seq<char>,
    item_sel: Seq<char>,
) -> Seq<Option<Seq<char>>>;

/// For each descendant matching `row_sel` of the `index`-th element of
/// the parsed markup matching `container_sel`, in document order: the
/// flattened texts of the row's first descendant matching `first_sel` and
/// of its first descendant matching `second_sel`.
pub uninterp spec fn selected_pair_texts(
    html: Seq<char>,
    container_sel: Seq<char>,
    index: int,
    row_sel: Seq<char>,
    first_sel: Seq<char>,
    second_sel: Seq<char>,
) -> Seq<(Option<Seq<char>>, Option<Seq<char>>)>;

/// Relies on scraper's Selector::parse: compiles a CSS selector group;
/// nothing is returned for a malformed pattern.
#[verifier::external_body]
fn parse_sel(pattern: &str) -> Option<scraper::Selector> {
    scraper::Selector::parse(pattern).ok()
}

/// Relies on scraper's ElementRef::select and ElementRef::text: the
/// flattened text of the first descendant of `el` matching `sel`, if any.
#[verifier::external_body]
fn first_text<'a>(el: &scraper::ElementRef<'a>, sel: &scraper::Selector) -> Option<String> {
    match el.select(sel).next() {
        Some(e) => Some(e.text().collect::<String>()),
        None => None,
    }
}

/// Relies on scraper's Html::parse_document, Selector::parse, Html::select,
/// ElementRef::select and ElementRef::text: parses the markup and reads, for
/// each element matching `row_sel` in document order, the flattened text of
/// its first descendant matching `item_sel`. Parsing and selection depend on
/// the three strings alone, so the rows carry a name; a malformed selector
/// yields no rows.
#[verifier::external_body]
pub(crate) fn select_first_texts(html: &str, row_sel: &str, item_sel: &str) -> (r: Vec<
    Option<String>,
>)
    ensures
        opts_view(r@) == selected_first_texts(html@, row_sel@, item_sel@),
{
    let doc = scraper::Html::parse_document(html);
    let (Some(rows), Some(item)) = (parse_sel(row_sel), parse_sel(item_sel)) else {
        return Vec::new();
    };
    let mut out = Vec::new();
    for row in doc.select(&rows) {
        out.push(first_text(&row, &item));
    }
    out
}

/// Relies on the same scraper calls, with Iterator::nth picking the
/// container: parses the markup, takes the `index`-th element matching
/// `container_sel`, and reads, for each of its descendants matching
/// `row_sel` in document order, the flattened texts of the row's first
/// descendants matching `first_sel` and `second_sel`. The rows depend on
/// the strings and the index alone, so they carry a name; a malformed
/// selector or a missing container yields no rows.
#[verifier::external_body]
pub(crate) fn select_pair_texts(
    html: &str,
    container_sel: &str,
    index: usize,
    row_sel: &str,
    first_sel: &str,
    second_sel: &str,
) -> (r: Vec<(Option<String>, Option<String>)>)
    ensures
        rows_view(r@) == selected_pair_texts(
            html@,
            container_sel@,
            index as int,
            row_sel@,
            first_sel@,
            second_sel@,
        ),
{
    let doc = scraper::Html::parse_document(html);
    let sels = (parse_sel(container_sel), parse_sel(row_sel), parse_sel(first_sel), parse_sel(second_sel));
    let (Some(cont), Some(rows), Some(first), Some(second)) = sels else {
        return Vec::new();
    };
    let mut out = Vec::new();
    if let Some(c) = doc.select(&cont).nth(index) {
        for row in c.select(&rows) {
            out.push((first_text(&row, &first), first_text(&row, &second)));
        }
    }
    out
}

} // verus!
