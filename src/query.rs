//! Query strings as `(field, value)` pairs.
use vstd::prelude::*;

use crate::search::chars_of;
use crate::search::starts_with;

verus! {

/// The `(name, value)` pairs that `application/x-www-form-urlencoded`
/// decoding reads from a query string.
pub uninterp spec fn form_pairs(raw: Seq<char>) -> Seq<(Seq<char>, Seq<char>)>;

/// The pairs as character sequences.
pub open spec fn pairs_view(pairs: Seq<(String, String)>) -> Seq<(Seq<char>, Seq<char>)> {
    pairs.map_values(|p: (String, String)| (p.0@, p.1@))
}

/// Relies on `url::form_urlencoded::parse`, which splits the query on `&`
/// and `=` and percent-decodes names and values; the pairs depend on the
/// text alone, and an empty text has none.
#[verifier::external_body]
pub(crate) fn query_pairs(raw: &str) -> (r: Vec<(String, String)>)
    ensures
        pairs_view(r@) == form_pairs(raw@),
        raw@.len() == 0 ==> r@.len() == 0,
{
    url::form_urlencoded::parse(raw.as_bytes()).into_owned().collect()
}

/// Whether `s` is exactly the characters of `word`.
pub(crate) fn text_is(s: &str, word: &Vec<char>) -> (r: bool)
    ensures
        r == (s@ == word@),
{
    let c = chars_of(s);
    if c.len() != word.len() {
        return false;
    }
    let r = starts_with(&c, word);
    assert(c@.subrange(0, word@.len() as int) =~= c@);
    r
}

} // verus!
