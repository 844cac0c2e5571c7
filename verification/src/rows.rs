//! Row processing: turning the raw rows read from the page into formatted
//! entries, and joining the entry lists into the final output block.

use vstd::prelude::*;
use vstd::string::StringExecFns;
use crate::text::{trimmed, trim_str, seq_views, join_sep, join_strs};

verus! {

/// The view of an optional string.
pub open spec fn opt_view(o: Option<String>) -> Option<Seq<char>> {
    match o {
        Some(s) => Some(s@),
        None => None,
    }
}

/// The views of a sequence of optional strings.
pub open spec fn opts_view(rows: Seq<Option<String>>) -> Seq<Option<Seq<char>>> {
    rows.map_values(|o: Option<String>| opt_view(o))
}

/// The views of a sequence of pairs of optional strings.
pub open spec fn rows_view(rows: Seq<(Option<String>, Option<String>)>) -> Seq<
    (Option<Seq<char>>, Option<Seq<char>>),
> {
    rows.map_values(|p: (Option<String>, Option<String>)| (opt_view(p.0), opt_view(p.1)))
}

/// The entry a row yields: present only when both parts of the row are
/// present; the parts are trimmed and joined with `sep`.
pub open spec fn row_entry(row: (Option<Seq<char>>, Option<Seq<char>>), sep: Seq<char>) -> Option<
    Seq<char>,
> {
    match row {
        (Some(a), Some(b)) => Some(trimmed(a) + sep + trimmed(b)),
        _ => None,
    }
}

/// The entries of all complete rows, in row order; rows missing either
/// part yield no entry.
pub open spec fn row_entries(
    rows: Seq<(Option<Seq<char>>, Option<Seq<char>>)>,
    sep: Seq<char>,
) -> Seq<Seq<char>>
    decreases rows.len(),
{
    if rows.len() == 0 {
        Seq::empty()
    } else {
        match row_entry(rows.last(), sep) {
            Some(e) => row_entries(rows.drop_last(), sep).push(e),
            None => row_entries(rows.drop_last(), sep),
        }
    }
}

/// The texts that are present, in row order, unmodified.
pub open spec fn present_texts(rows: Seq<Option<Seq<char>>>) -> Seq<Seq<char>>
    decreases rows.len(),
{
    if rows.len() == 0 {
        Seq::empty()
    } else {
        match rows.last() {
            Some(t) => present_texts(rows.drop_last()).push(t),
            None => present_texts(rows.drop_last()),
        }
    }
}

/// Builds one entry per complete row: the two parts trimmed and joined
/// with `sep`; rows missing either part are skipped.
pub fn collect_row_entries(rows: &Vec<(Option<String>, Option<String>)>, sep: &str) -> (r: Vec<
    String,
>)
    ensures
        seq_views(r@) == row_entries(rows_view(rows@), sep@),
{
    let ghost rv = rows_view(rows@);
    let mut out: Vec<String> = Vec::new();
    let mut i: usize = 0;
    while i < rows.len()
        invariant
            rv == rows_view(rows@),
            rv.len() == rows@.len(),
            i <= rows@.len(),
            seq_views(out@) == row_entries(rv.take(i as int), sep@),
        decreases rows@.len() - i,
    {
        let row = &rows[i];
        proof {
            assert(rv.take(i + 1).drop_last() =~= rv.take(i as int));
            assert(rv.take(i + 1).last() == rv[i as int]);
        }
        match (&row.0, &row.1) {
            (Some(a), Some(b)) => {
                let mut e = trim_str(a.as_str());
                e.append(sep);
                let tb = trim_str(b.as_str());
                e.append(tb.as_str());
                proof {
                    assert(row_entry(rv[i as int], sep@) == Some(e@));
                    assert(seq_views(out@.push(e)) =~= seq_views(out@).push(e@));
                }
                out.push(e);
            },
            _ => {
                proof {
                    assert(row_entry(rv[i as int], sep@) is None);
                }
            },
        }
        i += 1;
    }
    proof {
        assert(rv.take(rows@.len() as int) =~= rv);
    }
    out
}

/// Collects the texts that are present, in row order, unmodified.
pub fn collect_present_texts(rows: &Vec<Option<String>>) -> (r: Vec<String>)
    ensures
        seq_views(r@) == present_texts(opts_view(rows@)),
{
    let ghost rv = opts_view(rows@);
    let mut out: Vec<String> = Vec::new();
    let mut i: usize = 0;
    while i < rows.len()
        invariant
            rv == opts_view(rows@),
            rv.len() == rows@.len(),
            i <= rows@.len(),
            seq_views(out@) == present_texts(rv.take(i as int)),
        decreases rows@.len() - i,
    {
        proof {
            assert(rv.take(i + 1).drop_last() =~= rv.take(i as int));
            assert(rv.take(i + 1).last() == rv[i as int]);
        }
        match &rows[i] {
            Some(t) => {
                let e = t.clone();
                proof {
                    assert(seq_views(out@.push(e)) =~= seq_views(out@).push(e@));
                }
                out.push(e);
            },
            None => {
            },
        }
        i += 1;
    }
    proof {
        assert(rv.take(rows@.len() as int) =~= rv);
    }
    out
}

/// The final output block. When both entry lists are empty it is the
/// no-results sentinel; otherwise the phonetics entries are joined with
/// single spaces, the translation entries with newlines, and whichever of
/// the two joined parts are non-empty are output, phonetics first, with a
/// newline between them when both are present.
pub open spec fn format_spec(phonetics: Seq<Seq<char>>, translations: Seq<Seq<char>>) -> Seq<
    char,
> {
    if phonetics.len() == 0 && translations.len() == 0 {
        "No results."@
    } else {
        let p = join_sep(phonetics, " "@);
        let t = join_sep(translations, "\n"@);
        if p.len() == 0 {
            t
        } else if t.len() == 0 {
            p
        } else {
            p + "\n"@ + t
        }
    }
}

/// Joins the collected entries into the final output block.
pub fn format_output(phonetics: &Vec<String>, translations: &Vec<String>) -> (r: String)
    ensures
        r@ == format_spec(seq_views(phonetics@), seq_views(translations@)),
{
    if phonetics.len() == 0 && translations.len() == 0 {
        return "No results.".to_owned();
    }
    let p = join_strs(phonetics, " ");
    let t = join_strs(translations, "\n");
    if p.as_str().is_empty() {
        t
    } else if t.as_str().is_empty() {
        p
    } else {
        let mut r = p;
        r.append("\n");
        r.append(t.as_str());
        r
    }
}

} // verus!
