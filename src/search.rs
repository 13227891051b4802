//! Case-insensitive substring search over a company's name and code.

use vstd::prelude::*;
use crate::company::{Company, CompanyView};

verus! {

/// What `str::to_lowercase` makes of a text.
pub uninterp spec fn lower_of(s: Seq<char>) -> Seq<char>;

/// Relies on `str::to_lowercase`: the lowercase mapping of the text, which
/// depends on the text alone; an empty text stays empty.
#[verifier::external_body]
fn lowercase(s: &str) -> (r: String)
    ensures
        r@ == lower_of(s@),
        s@.len() == 0 ==> r@.len() == 0,
{
    s.to_lowercase()
}

/// `needle` occurs in `hay` as a run of consecutive characters.
pub open spec fn contains(hay: Seq<char>, needle: Seq<char>) -> bool {
    exists|i: int|
        0 <= i && i + needle.len() <= hay.len() && #[trigger] hay.subrange(i, i + needle.len())
            == needle
}

/// A record matches a search term when its name or its code contains the
/// term, both lowercased; with no term, or an empty one, every record
/// matches.
pub open spec fn matches_search(c: CompanyView, term: Option<Seq<char>>) -> bool {
    match term {
        Some(t) => t.len() == 0 || contains(lower_of(c.name), lower_of(t)) || contains(
            lower_of(c.code),
            lower_of(t),
        ),
        None => true,
    }
}

/// Whether `needle` occurs in `hay`.
pub fn contains_text(hay: &str, needle: &str) -> (r: bool)
    ensures
        r == contains(hay@, needle@),
{
    let n = hay.unicode_len();
    let m = needle.unicode_len();
    if m > n {
        return false;
    }
    let target = needle.to_owned();
    let mut i: usize = 0;
    while i <= n - m
        invariant
            n == hay@.len(),
            m == needle@.len(),
            m <= n,
            target@ == needle@,
            i <= n - m + 1,
            forall|j: int| 0 <= j < i ==> #[trigger] hay@.subrange(j, j + m) != needle@,
        decreases n - m + 1 - i,
    {
        let window = hay.substring_char(i, i + m).to_owned();
        if window == target {
            assert(hay@.subrange(i as int, i + m) == needle@);
            return true;
        }
        if i == n - m {
            return false;
        }
        i = i + 1;
    }
    false
}

/// The search rule on texts that are already lowercased.
pub fn matches_folded(name: &str, code: &str, term: &str) -> (r: bool)
    ensures
        r == (contains(name@, term@) || contains(code@, term@)),
{
    contains_text(name, term) || contains_text(code, term)
}

/// Whether a record passes the search filter.
pub fn company_matches(c: &Company, term: &Option<String>) -> (r: bool)
    ensures
        r == matches_search(c@, crate::query::query_view_search(*term)),
{
    match term {
        Some(t) => {
            if t.as_str().is_empty() {
                return true;
            }
            let name = lowercase(c.name.as_str());
            let code = lowercase(c.code.as_str());
            let folded = lowercase(t.as_str());
            matches_folded(name.as_str(), code.as_str(), folded.as_str())
        },
        None => true,
    }
}

} // verus!
