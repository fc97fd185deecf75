//! The file-search query builder: every keyword must appear in a
//! candidate's name, and folder-type entries are excluded.  Each keyword
//! is stripped of surrounding single quotes so it cannot break out of the
//! quoted term it is placed in.

use vstd::prelude::*;

use crate::strutil::{join_sep, join_with, split_ws, split_ws_spec, str_trim_quotes, trimmed_quotes};

verus! {

/// The search term requiring one keyword in the file name.
pub open spec fn spec_query_term(w: Seq<char>) -> Seq<char> {
    "name contains '"@ + trimmed_quotes(w) + "'"@
}

/// The whole query: one term per whitespace-separated keyword, joined
/// with `and`, and the folder exclusion appended.
pub open spec fn spec_drive_query(keywords: Seq<char>) -> Seq<char> {
    join_sep(split_ws_spec(keywords).map_values(|w: Seq<char>| spec_query_term(w)), " and "@)
        + " and mimeType != 'application/vnd.google-apps.folder'"@
}

/// Build the file-search query for a keyword list.
pub fn build_drive_query(keywords: &str) -> (r: String)
    ensures
        r@ == spec_drive_query(keywords@),
{
    let words = split_ws(keywords);
    let ghost word_views = split_ws_spec(keywords@);
    let mut terms: Vec<String> = Vec::new();
    let mut k: usize = 0;
    while k < words.len()
        invariant
            words@.len() == word_views.len(),
            forall|j: int| 0 <= j < words@.len() ==> words@[j]@ == word_views[j],
            0 <= k <= words@.len(),
            terms@.len() == k,
            forall|j: int| 0 <= j < k ==> #[trigger] terms@[j]@ == spec_query_term(word_views[j]),
        decreases words@.len() - k,
    {
        let mut term = String::new();
        term.append("name contains '");
        term.append(str_trim_quotes(words[k].as_str()));
        term.append("'");
        proof {
            assert(term@ =~= spec_query_term(word_views[k as int]));
        }
        terms.push(term);
        k += 1;
    }
    let mut r = join_with(&terms, " and ");
    proof {
        assert(terms@.map_values(|s: String| s@) =~= word_views.map_values(
            |w: Seq<char>| spec_query_term(w),
        ));
    }
    r.append(" and mimeType != 'application/vnd.google-apps.folder'");
    r
}

} // verus!
