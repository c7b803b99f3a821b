//! Compiled filter predicates, and what it means for a cell to satisfy one.
//!
//! A criteria record compiles to a sequence of predicates, one for each
//! field that is searched, in field order; a row is kept when it satisfies
//! all of them. Substring tests ignore ASCII case.
use vstd::prelude::*;

use crate::search::chars_of;
use crate::search::NullableSearch;
use crate::search::Search;

verus! {

/// A searchable column of one of the tables.
#[derive(Clone, Copy, Debug, PartialEq, Eq, Structural)]
pub enum Column {
    FirstName,
    LastName,
    BannerId,
    Email,
    AccessId,
    UserId,
    PermissionLevel,
}

/// A value that a column is compared with.
#[derive(Clone, Debug, PartialEq, Eq)]
pub enum Value {
    Text(String),
    Number(u64),
}

/// One condition on one column.
#[derive(Clone, Debug, PartialEq, Eq)]
pub enum Predicate {
    /// The column equals the value.
    Equals(Column, Value),
    /// The column holds the text as a substring, ignoring ASCII case.
    Contains(Column, String),
    /// The column holds no value.
    IsNull(Column),
    /// The column holds a value.
    IsNotNull(Column),
}

/// What a row holds in one column.
pub ghost enum Cell {
    Null,
    Text(Seq<char>),
    Number(int),
}

pub open spec fn predicate_column(p: Predicate) -> Column {
    match p {
        Predicate::Equals(c, _) => c,
        Predicate::Contains(c, _) => c,
        Predicate::IsNull(c) => c,
        Predicate::IsNotNull(c) => c,
    }
}

/// A character code with ASCII upper case mapped to lower case.
pub open spec fn fold_case(c: char) -> int {
    if 'A' <= c && c <= 'Z' {
        (c as int) + 32
    } else {
        c as int
    }
}

/// `needle` occurs in `hay` at `at`, ignoring ASCII case.
pub open spec fn occurs_at(hay: Seq<char>, needle: Seq<char>, at: int) -> bool {
    &&& 0 <= at
    &&& at + needle.len() <= hay.len()
    &&& forall|j: int| 0 <= j < needle.len() ==> fold_case(#[trigger] hay[at + j]) == fold_case(needle[j])
}

/// `needle` occurs somewhere in `hay`, ignoring ASCII case.
pub open spec fn contains_folded(hay: Seq<char>, needle: Seq<char>) -> bool {
    exists|at: int| occurs_at(hay, needle, at)
}

pub open spec fn value_cell(v: Value) -> Cell {
    match v {
        Value::Text(s) => Cell::Text(s@),
        Value::Number(n) => Cell::Number(n as int),
    }
}

/// Whether a cell satisfies a predicate (the column is not looked at).
pub open spec fn cell_satisfies(c: Cell, p: Predicate) -> bool {
    match p {
        Predicate::Equals(_, v) => c == value_cell(v),
        Predicate::Contains(_, s) => match c {
            Cell::Text(t) => contains_folded(t, s@),
            _ => false,
        },
        Predicate::IsNull(_) => c is Null,
        Predicate::IsNotNull(_) => !(c is Null),
    }
}

pub open spec fn text_cell(s: Option<String>) -> Cell {
    match s {
        Some(t) => Cell::Text(t@),
        None => Cell::Null,
    }
}

/// The predicates that a text term on `col` compiles to.
pub open spec fn text_term_predicates(col: Column, t: Search<String>) -> Seq<Predicate> {
    match t {
        Search::NoSearch => seq![],
        Search::Exact(v) => seq![Predicate::Equals(col, Value::Text(v))],
        Search::Partial(v) => seq![Predicate::Contains(col, v)],
    }
}

/// The predicates that a numeric term on `col` compiles to; a numeric column
/// has no substrings, so a partial term is an equality.
pub open spec fn number_term_predicates(col: Column, t: Search<int>) -> Seq<Predicate> {
    match t {
        Search::NoSearch => seq![],
        Search::Exact(v) => seq![Predicate::Equals(col, Value::Number(v as u64))],
        Search::Partial(v) => seq![Predicate::Equals(col, Value::Number(v as u64))],
    }
}

/// The predicates that a text term on an optional column compiles to.
pub open spec fn nullable_term_predicates(col: Column, t: NullableSearch<String>) -> Seq<Predicate> {
    match t {
        NullableSearch::NoSearch => seq![],
        NullableSearch::Exact(v) => seq![Predicate::Equals(col, Value::Text(v))],
        NullableSearch::Partial(v) => seq![Predicate::Contains(col, v)],
        NullableSearch::IsNotNull => seq![Predicate::IsNotNull(col)],
        NullableSearch::IsNull => seq![Predicate::IsNull(col)],
    }
}

/// Appends the predicates of a text term.
pub fn push_text_term(preds: &mut Vec<Predicate>, col: Column, t: &Search<String>)
    ensures
        final(preds)@ == old(preds)@ + text_term_predicates(col, *t),
{
    match t {
        Search::NoSearch => {},
        Search::Exact(v) => preds.push(Predicate::Equals(col, Value::Text(v.clone()))),
        Search::Partial(v) => preds.push(Predicate::Contains(col, v.clone())),
    }
    assert(preds@ =~= old(preds)@ + text_term_predicates(col, *t));
}

/// Appends the predicates of a numeric term.
pub fn push_number_term(preds: &mut Vec<Predicate>, col: Column, t: &Search<u64>)
    ensures
        final(preds)@ == old(preds)@ + number_term_predicates(col, search_int_u64(*t)),
{
    match t {
        Search::NoSearch => {},
        Search::Exact(v) => preds.push(Predicate::Equals(col, Value::Number(*v))),
        Search::Partial(v) => preds.push(Predicate::Equals(col, Value::Number(*v))),
    }
    assert(preds@ =~= old(preds)@ + number_term_predicates(col, search_int_u64(*t)));
}

pub open spec fn search_int_u64(s: Search<u64>) -> Search<int> {
    crate::search::search_int(s)
}

/// Appends the predicates of a text term on an optional column.
pub fn push_nullable_term(preds: &mut Vec<Predicate>, col: Column, t: &NullableSearch<String>)
    ensures
        final(preds)@ == old(preds)@ + nullable_term_predicates(col, *t),
{
    match t {
        NullableSearch::NoSearch => {},
        NullableSearch::Exact(v) => preds.push(Predicate::Equals(col, Value::Text(v.clone()))),
        NullableSearch::Partial(v) => preds.push(Predicate::Contains(col, v.clone())),
        NullableSearch::IsNotNull => preds.push(Predicate::IsNotNull(col)),
        NullableSearch::IsNull => preds.push(Predicate::IsNull(col)),
    }
    assert(preds@ =~= old(preds)@ + nullable_term_predicates(col, *t));
}

/// Whether two characters are equal up to ASCII case.
fn same_folded(a: char, b: char) -> (r: bool)
    ensures
        r == (fold_case(a) == fold_case(b)),
{
    if a == b {
        true
    } else if 'A' <= a && a <= 'Z' && 'a' <= b && b <= 'z' {
        a as u32 + 32 == b as u32
    } else if 'a' <= a && a <= 'z' && 'A' <= b && b <= 'Z' {
        a as u32 == b as u32 + 32
    } else {
        false
    }
}

/// Whether `n` occurs in `h` at `at`, ignoring ASCII case.
fn occurs_at_exec(h: &Vec<char>, n: &Vec<char>, at: usize) -> (r: bool)
    requires
        at + n@.len() <= h@.len(),
    ensures
        r == occurs_at(h@, n@, at as int),
{
    let hl = h.len();
    let mut j: usize = 0;
    while j < n.len()
        invariant
            at + n@.len() <= h@.len(),
            j <= n@.len(),
            hl == h@.len(),
            forall|i: int| 0 <= i < j ==> fold_case(#[trigger] h@[at + i]) == fold_case(n@[i]),
        decreases n@.len() - j,
    {
        let a = h[at + j];
        let b = n[j];
        if !same_folded(a, b) {
            assert(fold_case(h@[at + j]) != fold_case(n@[j as int]));
            return false;
        }
        j = j + 1;
    }
    true
}

/// Whether `needle` occurs in `hay`, ignoring ASCII case.
pub fn contains_ignoring_case(hay: &str, needle: &str) -> (r: bool)
    ensures
        r == contains_folded(hay@, needle@),
{
    let h = chars_of(hay);
    let n = chars_of(needle);
    if n.len() > h.len() {
        assert forall|at: int| !occurs_at(hay@, needle@, at) by {}
        return false;
    }
    let last = h.len() - n.len();
    let mut at: usize = 0;
    while at <= last
        invariant
            h@ == hay@,
            n@ == needle@,
            last == h@.len() - n@.len(),
            h@.len() <= usize::MAX,
            at <= last + 1,
            forall|k: int| 0 <= k < at ==> !occurs_at(hay@, needle@, k),
        decreases last + 1 - at,
    {
        if occurs_at_exec(&h, &n, at) {
            return true;
        }
        at = at + 1;
    }
    assert forall|k: int| !occurs_at(hay@, needle@, k) by {
        if 0 <= k && k + needle@.len() <= hay@.len() {
            assert(k < at);
        }
    }
    false
}

/// Whether a text cell (`None` for null) satisfies `p`.
pub fn text_satisfies(cell: Option<&String>, p: &Predicate) -> (r: bool)
    ensures
        r == cell_satisfies(
            match cell {
                Some(s) => Cell::Text(s@),
                None => Cell::Null,
            },
            *p,
        ),
{
    match p {
        Predicate::Equals(_, Value::Text(v)) => match cell {
            Some(s) => *s == *v,
            None => false,
        },
        Predicate::Equals(_, Value::Number(_)) => false,
        Predicate::Contains(_, v) => match cell {
            Some(s) => contains_ignoring_case(s.as_str(), v.as_str()),
            None => false,
        },
        Predicate::IsNull(_) => cell.is_none(),
        Predicate::IsNotNull(_) => cell.is_some(),
    }
}

/// Whether a numeric cell satisfies `p`.
pub fn number_satisfies(cell: u64, p: &Predicate) -> (r: bool)
    ensures
        r == cell_satisfies(Cell::Number(cell as int), *p),
{
    match p {
        Predicate::Equals(_, Value::Number(v)) => cell == *v,
        Predicate::IsNotNull(_) => true,
        _ => false,
    }
}

} // verus!
