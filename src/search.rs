//! Per-field search terms and the text grammar they are read from.
//!
//! A query value is a tag followed by a payload: `exact:<v>` and
//! `partial:<v>` for every term, and the bare words `null` and `notnull` for
//! terms on optional columns. A payload must not be empty. A field that is
//! not supplied at all is the only way to reach `NoSearch`.
use vstd::prelude::*;
use vstd::string::StrSliceExecFns;

use crate::errors::Error;
use crate::errors::ErrorKind;

verus! {

/// A filter on one field: none, equality, or substring.
#[derive(Clone, Debug, PartialEq, Eq)]
pub enum Search<T> {
    NoSearch,
    Exact(T),
    Partial(T),
}

/// A filter on one optional field: those of [`Search`], plus presence tests.
#[derive(Clone, Debug, PartialEq, Eq)]
pub enum NullableSearch<T> {
    NoSearch,
    Exact(T),
    Partial(T),
    IsNotNull,
    IsNull,
}

impl<T: View> View for Search<T> {
    type V = Search<T::V>;

    open spec fn view(&self) -> Search<T::V> {
        match self {
            Search::NoSearch => Search::NoSearch,
            Search::Exact(v) => Search::Exact(v@),
            Search::Partial(v) => Search::Partial(v@),
        }
    }
}

impl<T: View> View for NullableSearch<T> {
    type V = NullableSearch<T::V>;

    open spec fn view(&self) -> NullableSearch<T::V> {
        match self {
            NullableSearch::NoSearch => NullableSearch::NoSearch,
            NullableSearch::Exact(v) => NullableSearch::Exact(v@),
            NullableSearch::Partial(v) => NullableSearch::Partial(v@),
            NullableSearch::IsNotNull => NullableSearch::IsNotNull,
            NullableSearch::IsNull => NullableSearch::IsNull,
        }
    }
}

pub open spec fn exact_tag() -> Seq<char> {
    seq!['e', 'x', 'a', 'c', 't', ':']
}

pub open spec fn partial_tag() -> Seq<char> {
    seq!['p', 'a', 'r', 't', 'i', 'a', 'l', ':']
}

pub open spec fn null_word() -> Seq<char> {
    seq!['n', 'u', 'l', 'l']
}

pub open spec fn notnull_word() -> Seq<char> {
    seq!['n', 'o', 't', 'n', 'u', 'l', 'l']
}

/// The payload after `tag`, when `raw` starts with `tag`.
pub open spec fn after_tag(raw: Seq<char>, tag: Seq<char>) -> Option<Seq<char>> {
    if tag.len() <= raw.len() && raw.subrange(0, tag.len() as int) == tag {
        Some(raw.subrange(tag.len() as int, raw.len() as int))
    } else {
        None
    }
}

/// The tagged payload of a query value, as `(is_partial, payload)`.
pub open spec fn tagged_payload(raw: Seq<char>) -> Option<(bool, Seq<char>)> {
    match after_tag(raw, exact_tag()) {
        Some(p) => if p.len() > 0 { Some((false, p)) } else { None },
        None => match after_tag(raw, partial_tag()) {
            Some(p) => if p.len() > 0 { Some((true, p)) } else { None },
            None => None,
        },
    }
}

pub open spec fn is_digit(c: char) -> bool {
    '0' <= c && c <= '9'
}

pub open spec fn digit_value(c: char) -> int {
    (c as int) - ('0' as int)
}

pub open spec fn all_digits(s: Seq<char>) -> bool {
    forall|i: int| 0 <= i < s.len() ==> is_digit(#[trigger] s[i])
}

/// The number that a string of decimal digits denotes.
pub open spec fn decimal_value(s: Seq<char>) -> int
    decreases s.len(),
{
    if s.len() == 0 {
        0
    } else {
        decimal_value(s.drop_last()) * 10 + digit_value(s.last())
    }
}

/// A non-empty run of decimal digits whose value is at most `max`.
pub open spec fn decimal_at_most(s: Seq<char>, max: int) -> Option<int> {
    if s.len() > 0 && all_digits(s) && decimal_value(s) <= max {
        Some(decimal_value(s))
    } else {
        None
    }
}

/// What a query value denotes as a text term; `None` where it is malformed.
pub open spec fn text_search_of(raw: Seq<char>) -> Option<Search<Seq<char>>> {
    match tagged_payload(raw) {
        Some((partial, p)) => if partial { Some(Search::Partial(p)) } else { Some(Search::Exact(p)) },
        None => None,
    }
}

/// What a query value denotes as a numeric term with values up to `max`.
pub open spec fn number_search_of(raw: Seq<char>, max: int) -> Option<Search<int>> {
    match tagged_payload(raw) {
        Some((partial, p)) => match decimal_at_most(p, max) {
            Some(n) => if partial { Some(Search::Partial(n)) } else { Some(Search::Exact(n)) },
            None => None,
        },
        None => None,
    }
}

/// What a query value denotes as a text term on an optional column.
pub open spec fn nullable_text_search_of(raw: Seq<char>) -> Option<NullableSearch<Seq<char>>> {
    if raw == null_word() {
        Some(NullableSearch::IsNull)
    } else if raw == notnull_word() {
        Some(NullableSearch::IsNotNull)
    } else {
        match text_search_of(raw) {
            Some(Search::Exact(p)) => Some(NullableSearch::Exact(p)),
            Some(Search::Partial(p)) => Some(NullableSearch::Partial(p)),
            _ => None,
        }
    }
}

/// A numeric term as the integers it holds.
pub open spec fn search_int<N: Integer>(s: Search<N>) -> Search<int> {
    match s {
        Search::NoSearch => Search::NoSearch,
        Search::Exact(v) => Search::Exact(v as int),
        Search::Partial(v) => Search::Partial(v as int),
    }
}

/// The characters of `s`, in order.
pub(crate) fn chars_of(s: &str) -> (r: Vec<char>)
    ensures
        r@ == s@,
{
    let n = s.unicode_len();
    let mut r: Vec<char> = Vec::new();
    let mut i: usize = 0;
    while i < n
        invariant
            n == s@.len(),
            i <= n,
            r@ == s@.subrange(0, i as int),
        decreases n - i,
    {
        r.push(s.get_char(i));
        i = i + 1;
        assert(r@ =~= s@.subrange(0, i as int));
    }
    assert(r@ =~= s@);
    r
}

/// Whether `s` starts with the characters of `tag`.
pub(crate) fn starts_with(s: &Vec<char>, tag: &Vec<char>) -> (r: bool)
    ensures
        r == (tag@.len() <= s@.len() && s@.subrange(0, tag@.len() as int) == tag@),
{
    if tag.len() > s.len() {
        return false;
    }
    let mut i: usize = 0;
    while i < tag.len()
        invariant
            tag@.len() <= s@.len(),
            i <= tag@.len(),
            forall|j: int| 0 <= j < i ==> s@[j] == tag@[j],
        decreases tag@.len() - i,
    {
        if s[i] != tag[i] {
            assert(s@.subrange(0, tag@.len() as int)[i as int] != tag@[i as int]);
            return false;
        }
        i = i + 1;
    }
    assert(s@.subrange(0, tag@.len() as int) =~= tag@);
    true
}

/// `decimal_value` of an all-digit string is at least that of each prefix.
proof fn lemma_decimal_prefix(s: Seq<char>, k: int)
    requires
        all_digits(s),
        0 <= k <= s.len(),
    ensures
        0 <= decimal_value(s.take(k)) <= decimal_value(s),
    decreases s.len(),
{
    if k == s.len() {
        assert(s.take(k) =~= s);
        lemma_decimal_nonneg(s);
    } else {
        let d = s.drop_last();
        assert(all_digits(d)) by {
            assert forall|i: int| 0 <= i < d.len() implies is_digit(#[trigger] d[i]) by {
                assert(d[i] == s[i]);
            }
        }
        lemma_decimal_prefix(d, k);
        assert(d.take(k) =~= s.take(k));
        assert(is_digit(s[s.len() - 1]));
    }
}

proof fn lemma_decimal_nonneg(s: Seq<char>)
    requires
        all_digits(s),
    ensures
        decimal_value(s) >= 0,
    decreases s.len(),
{
    if s.len() > 0 {
        let d = s.drop_last();
        assert forall|i: int| 0 <= i < d.len() implies is_digit(#[trigger] d[i]) by {
            assert(d[i] == s[i]);
        }
        lemma_decimal_nonneg(d);
        assert(is_digit(s[s.len() - 1]));
    }
}

/// The number written in decimal in `s[from..]`, when it is a non-empty run
/// of digits whose value is at most `max`.
fn decimal_from(s: &Vec<char>, from: usize, max: u64) -> (r: Option<u64>)
    requires
        from <= s@.len(),
    ensures
        match decimal_at_most(s@.subrange(from as int, s@.len() as int), max as int) {
            Some(v) => 0 <= v <= max && r == Some(v as u64),
            None => r is None,
        },
{
    let ghost seg = s@.subrange(from as int, s@.len() as int);
    if from == s.len() {
        return None;
    }
    let mut acc: u128 = 0;
    let mut i: usize = from;
    while i < s.len()
        invariant
            from <= i <= s@.len(),
            seg == s@.subrange(from as int, s@.len() as int),
            all_digits(s@.subrange(from as int, i as int)),
            acc as int == decimal_value(s@.subrange(from as int, i as int)),
            acc <= max,
        decreases s@.len() - i,
    {
        let c = s[i];
        if !('0' <= c && c <= '9') {
            assert(!is_digit(seg[i - from]));
            return None;
        }
        let ghost pre = s@.subrange(from as int, i as int);
        let ghost next = s@.subrange(from as int, i + 1);
        assert(next.drop_last() =~= pre);
        assert(all_digits(next)) by {
            assert forall|j: int| 0 <= j < next.len() implies is_digit(#[trigger] next[j]) by {
                if j < pre.len() {
                    assert(next[j] == pre[j]);
                }
            }
        }
        acc = acc * 10 + ((c as u32 - '0' as u32) as u128);
        i = i + 1;
        if acc > max as u128 {
            proof {
                if all_digits(seg) {
                    assert(seg.take(next.len() as int) =~= next);
                    lemma_decimal_prefix(seg, next.len() as int);
                }
            }
            return None;
        }
    }
    assert(seg =~= s@.subrange(from as int, i as int));
    proof {
        lemma_decimal_nonneg(seg);
    }
    Some(acc as u64)
}

/// The tagged payload of `raw`, as `(is_partial, payload)`.
fn tagged(raw: &str, chars: &Vec<char>) -> (r: Option<(bool, usize)>)
    requires
        chars@ == raw@,
    ensures
        match tagged_payload(raw@) {
            Some((partial, p)) => r matches Some((rp, at)) && rp == partial && at <= raw@.len()
                && p == raw@.subrange(at as int, raw@.len() as int),
            None => r is None,
        },
{
    let exact: Vec<char> = vec!['e', 'x', 'a', 'c', 't', ':'];
    let partial: Vec<char> = vec!['p', 'a', 'r', 't', 'i', 'a', 'l', ':'];
    assert(exact@ =~= exact_tag());
    assert(partial@ =~= partial_tag());
    if starts_with(chars, &exact) {
        if chars.len() > exact.len() {
            Some((false, exact.len()))
        } else {
            None
        }
    } else if starts_with(chars, &partial) {
        if chars.len() > partial.len() {
            Some((true, partial.len()))
        } else {
            None
        }
    } else {
        None
    }
}

impl Search<String> {
    /// Reads a text term from a query value.
    pub fn from_query(raw: &str) -> (r: Result<Search<String>, Error>)
        ensures
            match text_search_of(raw@) {
                Some(t) => r is Ok && r->Ok_0@ == t,
                None => r == Err::<Search<String>, Error>(Error { kind: ErrorKind::Url }),
            },
    {
        let chars = chars_of(raw);
        match tagged(raw, &chars) {
            Some((partial, at)) => {
                let payload = raw.substring_char(at, chars.len()).to_owned();
                if partial {
                    Ok(Search::Partial(payload))
                } else {
                    Ok(Search::Exact(payload))
                }
            },
            None => Err(Error::new(ErrorKind::Url)),
        }
    }
}

impl Search<u32> {
    /// Reads a numeric term from a query value.
    pub fn from_query(raw: &str) -> (r: Result<Search<u32>, Error>)
        ensures
            match number_search_of(raw@, u32::MAX as int) {
                Some(t) => r is Ok && search_int(r->Ok_0) == t,
                None => r == Err::<Search<u32>, Error>(Error { kind: ErrorKind::Url }),
            },
    {
        let chars = chars_of(raw);
        match tagged(raw, &chars) {
            Some((partial, at)) => match decimal_from(&chars, at, u32::MAX as u64) {
                Some(n) => {
                    if partial {
                        Ok(Search::Partial(n as u32))
                    } else {
                        Ok(Search::Exact(n as u32))
                    }
                },
                None => Err(Error::new(ErrorKind::Url)),
            },
            None => Err(Error::new(ErrorKind::Url)),
        }
    }
}

impl Search<u64> {
    /// Reads a numeric term from a query value.
    pub fn from_query(raw: &str) -> (r: Result<Search<u64>, Error>)
        ensures
            match number_search_of(raw@, u64::MAX as int) {
                Some(t) => r is Ok && search_int(r->Ok_0) == t,
                None => r == Err::<Search<u64>, Error>(Error { kind: ErrorKind::Url }),
            },
    {
        let chars = chars_of(raw);
        match tagged(raw, &chars) {
            Some((partial, at)) => match decimal_from(&chars, at, u64::MAX) {
                Some(n) => {
                    if partial {
                        Ok(Search::Partial(n))
                    } else {
                        Ok(Search::Exact(n))
                    }
                },
                None => Err(Error::new(ErrorKind::Url)),
            },
            None => Err(Error::new(ErrorKind::Url)),
        }
    }
}

impl NullableSearch<String> {
    /// Reads a text term on an optional column from a query value.
    pub fn from_query(raw: &str) -> (r: Result<NullableSearch<String>, Error>)
        ensures
            match nullable_text_search_of(raw@) {
                Some(t) => r is Ok && r->Ok_0@ == t,
                None => r == Err::<NullableSearch<String>, Error>(Error { kind: ErrorKind::Url }),
            },
    {
        let chars = chars_of(raw);
        let null: Vec<char> = vec!['n', 'u', 'l', 'l'];
        let notnull: Vec<char> = vec!['n', 'o', 't', 'n', 'u', 'l', 'l'];
        assert(null@ =~= null_word());
        assert(notnull@ =~= notnull_word());
        assert(raw@ == null_word() ==> chars@.len() == null@.len() && chars@.subrange(0, 4) =~= null@);
        assert(raw@ == notnull_word() ==> chars@.len() == notnull@.len() && chars@.subrange(0, 7) =~= notnull@);
        if chars.len() == null.len() && starts_with(&chars, &null) {
            assert(raw@ =~= chars@.subrange(0, null@.len() as int));
            return Ok(NullableSearch::IsNull);
        }
        if chars.len() == notnull.len() && starts_with(&chars, &notnull) {
            assert(raw@ =~= chars@.subrange(0, notnull@.len() as int));
            return Ok(NullableSearch::IsNotNull);
        }
        match Search::<String>::from_query(raw) {
            Ok(Search::Exact(p)) => Ok(NullableSearch::Exact(p)),
            Ok(Search::Partial(p)) => Ok(NullableSearch::Partial(p)),
            _ => Err(Error::new(ErrorKind::Url)),
        }
    }
}

} // verus!
