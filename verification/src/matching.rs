//! Title search over an enumeration snapshot.
//!
//! A query matches a window either exactly (the titles are equal) or
//! as a case-insensitive substring: both title and query are folded to
//! lower case and the folded query is searched for in the folded
//! title, byte by byte.

use vstd::prelude::*;

use crate::records::WindowInfo;

verus! {

/// The lower-case folding of a character sequence, as
/// `str::to_lowercase` computes it.
pub uninterp spec fn fold_case_of(s: Seq<char>) -> Seq<char>;

/// Relies on `str::to_lowercase`: the Unicode lowercase mapping, a
/// function of the characters alone; an empty string stays empty.
#[verifier::external_body]
fn fold_case(s: &str) -> (r: String)
    ensures
        r@ == fold_case_of(s@),
        s@.len() == 0 ==> r@.len() == 0,
{
    s.to_lowercase()
}

/// `needle` occurs in `hay` starting at position `i`.
pub open spec fn is_match_at(hay: Seq<u8>, needle: Seq<u8>, i: int) -> bool {
    0 <= i && i + needle.len() <= hay.len() && hay.subrange(i, i + needle.len()) == needle
}

/// `needle` occurs somewhere in `hay`.
pub open spec fn spec_contains_bytes(hay: Seq<u8>, needle: Seq<u8>) -> bool {
    exists|i: int| is_match_at(hay, needle, i)
}

/// Decide whether `needle` occurs in `hay` at position `i`.
fn match_at(hay: &[u8], needle: &[u8], i: usize) -> (r: bool)
    requires
        i + needle@.len() <= hay@.len(),
    ensures
        r == is_match_at(hay@, needle@, i as int),
{
    let hl = hay.len();
    let nl = needle.len();
    let mut j: usize = 0;
    while j < nl
        invariant
            hl == hay@.len(),
            nl == needle@.len(),
            i + nl <= hay@.len(),
            j <= nl,
            forall|k: int| 0 <= k < j ==> hay@[i + k] == needle@[k],
        decreases nl - j,
    {
        if hay[i + j] != needle[j] {
            proof {
                if is_match_at(hay@, needle@, i as int) {
                    assert(hay@.subrange(i as int, i + nl)[j as int] == needle@[j as int]);
                }
            }
            return false;
        }
        j += 1;
    }
    assert(hay@.subrange(i as int, i + nl) =~= needle@);
    true
}

/// Decide whether `needle` occurs in `hay`.
pub fn contains_bytes(hay: &[u8], needle: &[u8]) -> (r: bool)
    ensures
        r == spec_contains_bytes(hay@, needle@),
{
    let hl = hay.len();
    let nl = needle.len();
    if nl > hl {
        assert(forall|i: int| !is_match_at(hay@, needle@, i));
        return false;
    }
    if nl == 0 {
        assert(hay@.subrange(0, 0) =~= needle@);
        assert(is_match_at(hay@, needle@, 0));
        return true;
    }
    let mut i: usize = 0;
    while i <= hl - nl
        invariant
            nl <= hl == hay@.len(),
            nl == needle@.len(),
            1 <= nl,
            i <= hl - nl + 1,
            forall|k: int| 0 <= k < i ==> !is_match_at(hay@, needle@, k),
        decreases hl - nl - i + 1,
    {
        if match_at(hay, needle, i) {
            return true;
        }
        i += 1;
    }
    assert forall|k: int| !is_match_at(hay@, needle@, k) by {
        if 0 <= k < i {
        } else if k >= i {
            assert(k + needle@.len() > hay@.len() || k < 0 || !is_match_at(hay@, needle@, k));
        }
    }
    false
}

/// How a query matches a title: exact equality, or occurrence of the
/// case-folded query inside the case-folded title.
pub open spec fn title_matches(title: Seq<char>, query: Seq<char>, exact: bool) -> bool {
    if exact {
        title == query
    } else {
        spec_contains_bytes(
            vstd::utf8::encode_utf8(fold_case_of(title)),
            vstd::utf8::encode_utf8(fold_case_of(query)),
        )
    }
}

/// Decide whether one window title matches the query.
pub fn window_title_matches(title: &String, query: &String, exact: bool) -> (r: bool)
    ensures
        r == title_matches(title@, query@, exact),
{
    if exact {
        *title == *query
    } else {
        let folded_title = fold_case(title.as_str());
        let folded_query = fold_case(query.as_str());
        contains_bytes(folded_title.as_str().as_bytes(), folded_query.as_str().as_bytes())
    }
}

/// The search flag a boundary value carries: absent means substring
/// search.
pub open spec fn exact_flag(exact: Option<bool>) -> bool {
    match exact {
        Some(b) => b,
        None => false,
    }
}

/// The windows of a snapshot whose titles match the query, in
/// snapshot order.
pub open spec fn matching_windows(ws: Seq<WindowInfo>, query: Seq<char>, exact: bool) -> Seq<
    WindowInfo,
>
    decreases ws.len(),
{
    if ws.len() == 0 {
        Seq::empty()
    } else {
        let rest = matching_windows(ws.drop_last(), query, exact);
        if title_matches(ws.last().title@, query, exact) {
            rest.push(ws.last())
        } else {
            rest
        }
    }
}

/// Select the windows whose titles match the query. An absent `exact`
/// flag means case-insensitive substring search.
pub fn find_windows_by_title(windows: &Vec<WindowInfo>, title: &String, exact: Option<bool>) -> (r:
    Vec<WindowInfo>)
    ensures
        r@ == matching_windows(windows@, title@, exact_flag(exact)),
{
    let is_exact = match exact {
        Some(b) => b,
        None => false,
    };
    let mut out: Vec<WindowInfo> = Vec::new();
    let n = windows.len();
    for i in 0..n
        invariant
            n == windows@.len(),
            out@ == matching_windows(windows@.subrange(0, i as int), title@, is_exact),
            is_exact == exact_flag(exact),
    {
        proof {
            let prefix = windows@.subrange(0, i + 1);
            assert(prefix.drop_last() =~= windows@.subrange(0, i as int));
            assert(prefix.last() == windows@[i as int]);
        }
        if window_title_matches(&windows[i].title, title, is_exact) {
            out.push(crate::records::clone_record(&windows[i]));
        }
    }
    proof {
        assert(windows@.subrange(0, n as int) =~= windows@);
    }
    out
}

/// Select the first window whose title matches the query, if any.
pub fn find_window_by_title(windows: &Vec<WindowInfo>, title: &String, exact: Option<bool>) -> (r:
    Option<WindowInfo>)
    ensures
        match r {
            Some(w) => matching_windows(windows@, title@, exact_flag(exact)).len() > 0 && w
                == matching_windows(windows@, title@, exact_flag(exact))[0],
            None => matching_windows(windows@, title@, exact_flag(exact)).len() == 0,
        },
{
    let mut found = find_windows_by_title(windows, title, exact);
    if found.len() == 0 {
        None
    } else {
        Some(found.remove(0))
    }
}

} // verus!
