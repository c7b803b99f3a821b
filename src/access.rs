//! Capabilities (`Access`), grants of them to users (`UserAccess`), and the
//! rule by which a held permission level meets a required one.
use vstd::prelude::*;

use crate::filter::cell_satisfies;
use crate::filter::nullable_term_predicates;
use crate::filter::number_satisfies;
use crate::filter::number_term_predicates;
use crate::filter::predicate_column;
use crate::filter::push_nullable_term;
use crate::filter::push_number_term;
use crate::filter::text_cell;
use crate::filter::text_satisfies;
use crate::filter::Cell;
use crate::filter::Column;
use crate::filter::Predicate;
use crate::errors::Error;
use crate::errors::ErrorKind;
use crate::query::form_pairs;
use crate::query::pairs_view;
use crate::query::query_pairs;
use crate::query::text_is;
use crate::search::chars_of;
use crate::search::nullable_text_search_of;
use crate::search::number_search_of;
use crate::search::search_int;
use crate::search::NullableSearch;
use crate::search::Search;

verus! {

/// A named capability, optionally requiring a permission level.
#[derive(Clone, Debug)]
pub struct Access {
    pub id: u64,
    pub name: String,
    pub permission_level: Option<String>,
}

/// A capability to be created; the store gives it its id.
#[derive(Clone, Debug)]
pub struct NewAccess {
    pub name: String,
    pub permission_level: Option<String>,
}

/// The fields of a capability to change; `None` leaves a field as it is.
#[derive(Clone, Debug)]
pub struct PartialAccess {
    pub name: Option<String>,
    pub permission_level: Option<Option<String>>,
}

/// A grant of a capability to a user.
#[derive(Clone, Debug)]
pub struct UserAccess {
    pub permission_id: u64,
    pub user_id: u64,
    pub access_id: u64,
    pub permission_level: Option<String>,
}

/// A grant to be created; the store gives it its id.
#[derive(Clone, Debug)]
pub struct NewUserAccess {
    pub user_id: u64,
    pub access_id: u64,
    pub permission_level: Option<String>,
}

/// The permission level of a grant to change; `None` leaves it as it is.
#[derive(Clone, Debug)]
pub struct PartialUserAccess {
    pub permission_level: Option<Option<String>>,
}

/// A grant together with the identity of its holder.
#[derive(Clone, Debug)]
pub struct JoinedUserAccess {
    pub permission_id: u64,
    pub user_id: u64,
    pub access_id: u64,
    pub first_name: String,
    pub last_name: String,
    pub banner_id: u32,
}

/// The grants that a search found.
#[derive(Clone, Debug)]
pub struct JoinedUserAccessList {
    pub entries: Vec<JoinedUserAccess>,
}

/// Search criteria over grants.
#[derive(Clone, Debug)]
pub struct SearchUserAccess {
    pub access_id: Search<u64>,
    pub user_id: Search<u64>,
    pub permission_level: NullableSearch<String>,
}

/// An operation on capabilities.
#[derive(Clone, Debug)]
pub enum AccessRequest {
    GetAccess(u64),
    CreateAccess(NewAccess),
    UpdateAccess(u64, PartialAccess),
    DeleteAccess(u64),
}

/// The outcome of an operation on capabilities.
#[derive(Clone, Debug)]
pub enum AccessResponse {
    OneAccess(Access),
    NoResponse,
}

/// An operation on grants.
#[derive(Clone, Debug)]
pub enum UserAccessRequest {
    SearchAccess(SearchUserAccess),
    GetAccess(u64),
    CheckAccess(u64, u64),
    CreateAccess(NewUserAccess),
    UpdateAccess(u64, PartialUserAccess),
    DeleteAccess(u64),
}

/// The outcome of an operation on grants.
#[derive(Clone, Debug)]
pub enum UserAccessResponse {
    ManyUserAccess(JoinedUserAccessList),
    OneUserAccess(UserAccess),
    AccessState(bool),
    NoResponse,
}

pub open spec fn opt_view(s: Option<String>) -> Option<Seq<char>> {
    match s {
        Some(t) => Some(t@),
        None => None,
    }
}

/// `a` comes no later than `b` in the order of character codes, a prefix
/// first.
pub open spec fn lex_le(a: Seq<char>, b: Seq<char>) -> bool
    decreases a.len(),
{
    if a.len() == 0 {
        true
    } else if b.len() == 0 {
        false
    } else if a[0] != b[0] {
        a[0] < b[0]
    } else {
        lex_le(a.drop_first(), b.drop_first())
    }
}

/// A held level meets a required one: nothing is required, or a level is
/// held that is at least the required one in the order of `lex_le`.
pub open spec fn level_meets(held: Option<Seq<char>>, required: Option<Seq<char>>) -> bool {
    match required {
        None => true,
        Some(req) => match held {
            Some(h) => lex_le(req, h),
            None => false,
        },
    }
}

/// Whether `a` comes no later than `b` in the order of `lex_le`.
pub fn text_lex_le(a: &str, b: &str) -> (r: bool)
    ensures
        r == lex_le(a@, b@),
{
    let x = chars_of(a);
    let y = chars_of(b);
    let mut i: usize = 0;
    assert(a@.skip(0) =~= a@);
    assert(b@.skip(0) =~= b@);
    while i < x.len()
        invariant
            x@ == a@,
            y@ == b@,
            i <= x@.len(),
            i <= y@.len(),
            lex_le(a@, b@) == lex_le(a@.skip(i as int), b@.skip(i as int)),
        decreases x@.len() - i,
    {
        assert(a@.skip(i as int).drop_first() =~= a@.skip(i + 1));
        if i == y.len() {
            return false;
        }
        assert(b@.skip(i as int).drop_first() =~= b@.skip(i + 1));
        if x[i] != y[i] {
            return x[i] < y[i];
        }
        i = i + 1;
    }
    assert(a@.skip(i as int).len() == 0);
    true
}

/// Whether a held level meets a required one.
pub fn meets_level(held: &Option<String>, required: &Option<String>) -> (r: bool)
    ensures
        r == level_meets(opt_view(*held), opt_view(*required)),
{
    match required {
        None => true,
        Some(req) => match held {
            Some(h) => text_lex_le(req.as_str(), h.as_str()),
            None => false,
        },
    }
}

/// The predicates that grant criteria compile to, in field order.
pub open spec fn user_access_predicates(s: SearchUserAccess) -> Seq<Predicate> {
    number_term_predicates(Column::AccessId, search_int(s.access_id)) + number_term_predicates(
        Column::UserId,
        search_int(s.user_id),
    ) + nullable_term_predicates(Column::PermissionLevel, s.permission_level)
}

/// What a grant holds in a column; `None` for a column of another table.
pub open spec fn grant_cell(g: UserAccess, c: Column) -> Option<Cell> {
    match c {
        Column::AccessId => Some(Cell::Number(g.access_id as int)),
        Column::UserId => Some(Cell::Number(g.user_id as int)),
        Column::PermissionLevel => Some(text_cell(g.permission_level)),
        _ => None,
    }
}

pub open spec fn grant_satisfies(g: UserAccess, p: Predicate) -> bool {
    match grant_cell(g, predicate_column(p)) {
        Some(c) => cell_satisfies(c, p),
        None => false,
    }
}

/// A grant satisfies every predicate.
pub open spec fn grant_matches(g: UserAccess, preds: Seq<Predicate>) -> bool {
    forall|i: int| 0 <= i < preds.len() ==> #[trigger] grant_satisfies(g, preds[i])
}

/// Search criteria over grants, as values.
pub ghost struct UserAccessCriteria {
    pub access_id: Search<int>,
    pub user_id: Search<int>,
    pub permission_level: NullableSearch<Seq<char>>,
}

impl View for SearchUserAccess {
    type V = UserAccessCriteria;

    open spec fn view(&self) -> UserAccessCriteria {
        UserAccessCriteria {
            access_id: search_int(self.access_id),
            user_id: search_int(self.user_id),
            permission_level: self.permission_level@,
        }
    }
}

pub open spec fn access_id_field() -> Seq<char> {
    seq!['a', 'c', 'c', 'e', 's', 's', '_', 'i', 'd']
}

pub open spec fn user_id_field() -> Seq<char> {
    seq!['u', 's', 'e', 'r', '_', 'i', 'd']
}

pub open spec fn permission_level_field() -> Seq<char> {
    seq!['p', 'e', 'r', 'm', 'i', 's', 's', 'i', 'o', 'n', '_', 'l', 'e', 'v', 'e', 'l']
}

/// Criteria that search no field.
pub open spec fn no_user_access_criteria() -> UserAccessCriteria {
    UserAccessCriteria {
        access_id: Search::NoSearch,
        user_id: Search::NoSearch,
        permission_level: NullableSearch::NoSearch,
    }
}

/// The criteria after reading one `(field, value)` pair into `c`; `None`
/// where the field is unknown or the value malformed.
pub open spec fn read_user_access_pair(c: UserAccessCriteria, field: Seq<char>, value: Seq<char>) -> Option<
    UserAccessCriteria,
> {
    if field == access_id_field() {
        match number_search_of(value, u64::MAX as int) {
            Some(t) => Some(UserAccessCriteria { access_id: t, ..c }),
            None => None,
        }
    } else if field == user_id_field() {
        match number_search_of(value, u64::MAX as int) {
            Some(t) => Some(UserAccessCriteria { user_id: t, ..c }),
            None => None,
        }
    } else if field == permission_level_field() {
        match nullable_text_search_of(value) {
            Some(t) => Some(UserAccessCriteria { permission_level: t, ..c }),
            None => None,
        }
    } else {
        None
    }
}

/// The criteria after reading `pairs` in order into `c`; a later pair for a
/// field replaces an earlier one.
pub open spec fn read_user_access_pairs(
    c: UserAccessCriteria,
    pairs: Seq<(Seq<char>, Seq<char>)>,
) -> Option<UserAccessCriteria>
    decreases pairs.len(),
{
    if pairs.len() == 0 {
        Some(c)
    } else {
        match read_user_access_pair(c, pairs[0].0, pairs[0].1) {
            Some(n) => read_user_access_pairs(n, pairs.drop_first()),
            None => None,
        }
    }
}

fn read_user_access_field(c: &mut SearchUserAccess, field: &str, value: &str) -> (r: Result<(), Error>)
    ensures
        match read_user_access_pair(old(c)@, field@, value@) {
            Some(n) => r is Ok && final(c)@ == n,
            None => r == Err::<(), Error>(Error { kind: ErrorKind::Url }),
        },
{
    let access: Vec<char> = vec!['a', 'c', 'c', 'e', 's', 's', '_', 'i', 'd'];
    let user: Vec<char> = vec!['u', 's', 'e', 'r', '_', 'i', 'd'];
    let level: Vec<char> = vec![
        'p', 'e', 'r', 'm', 'i', 's', 's', 'i', 'o', 'n', '_', 'l', 'e', 'v', 'e', 'l',
    ];
    assert(access@ =~= access_id_field());
    assert(user@ =~= user_id_field());
    assert(level@ =~= permission_level_field());
    if text_is(field, &access) {
        c.access_id = Search::<u64>::from_query(value)?;
    } else if text_is(field, &user) {
        c.user_id = Search::<u64>::from_query(value)?;
    } else if text_is(field, &level) {
        c.permission_level = NullableSearch::<String>::from_query(value)?;
    } else {
        return Err(Error::new(ErrorKind::Url));
    }
    Ok(())
}

impl SearchUserAccess {
    /// Criteria that search no field.
    pub fn new() -> (r: SearchUserAccess)
        ensures
            r@ == no_user_access_criteria(),
    {
        SearchUserAccess {
            access_id: Search::NoSearch,
            user_id: Search::NoSearch,
            permission_level: NullableSearch::NoSearch,
        }
    }

    /// Reads criteria from `(field, value)` pairs. A field that no pair names
    /// is not searched; an unknown field or a malformed value is an error.
    pub fn from_query(pairs: &Vec<(String, String)>) -> (r: Result<SearchUserAccess, Error>)
        ensures
            match read_user_access_pairs(no_user_access_criteria(), pairs_view(pairs@)) {
                Some(c) => r is Ok && r->Ok_0@ == c,
                None => r == Err::<SearchUserAccess, Error>(Error { kind: ErrorKind::Url }),
            },
    {
        let ghost all = pairs_view(pairs@);
        let mut c = SearchUserAccess::new();
        let mut i: usize = 0;
        assert(all.skip(0) =~= all);
        while i < pairs.len()
            invariant
                i <= pairs@.len(),
                all == pairs_view(pairs@),
                read_user_access_pairs(no_user_access_criteria(), all) == read_user_access_pairs(
                    c@,
                    all.skip(i as int),
                ),
            decreases pairs@.len() - i,
        {
            let ghost rest = all.skip(i as int);
            assert(rest[0] == (pairs@[i as int].0@, pairs@[i as int].1@));
            assert(rest.drop_first() =~= all.skip(i + 1));
            let (field, value) = &pairs[i];
            read_user_access_field(&mut c, field.as_str(), value.as_str())?;
            i = i + 1;
        }
        assert(all.skip(i as int).len() == 0);
        Ok(c)
    }

    /// Reads criteria from a URL query string.
    pub fn from_query_string(raw: &str) -> (r: Result<SearchUserAccess, Error>)
        ensures
            match read_user_access_pairs(no_user_access_criteria(), form_pairs(raw@)) {
                Some(c) => r is Ok && r->Ok_0@ == c,
                None => r == Err::<SearchUserAccess, Error>(Error { kind: ErrorKind::Url }),
            },
    {
        let pairs = query_pairs(raw);
        SearchUserAccess::from_query(&pairs)
    }

    /// The predicates these criteria compile to, in field order; a field
    /// that is not searched adds none.
    pub fn predicates(&self) -> (r: Vec<Predicate>)
        ensures
            r@ == user_access_predicates(*self),
    {
        let mut r: Vec<Predicate> = Vec::new();
        push_number_term(&mut r, Column::AccessId, &self.access_id);
        push_number_term(&mut r, Column::UserId, &self.user_id);
        push_nullable_term(&mut r, Column::PermissionLevel, &self.permission_level);
        assert(r@ =~= user_access_predicates(*self));
        r
    }
}

impl UserAccess {
    /// Whether this grant satisfies `p`.
    pub fn satisfies(&self, p: &Predicate) -> (r: bool)
        ensures
            r == grant_satisfies(*self, *p),
    {
        let col = match p {
            Predicate::Equals(c, _) => *c,
            Predicate::Contains(c, _) => *c,
            Predicate::IsNull(c) => *c,
            Predicate::IsNotNull(c) => *c,
        };
        match col {
            Column::AccessId => number_satisfies(self.access_id, p),
            Column::UserId => number_satisfies(self.user_id, p),
            Column::PermissionLevel => match &self.permission_level {
                Some(l) => text_satisfies(Some(l), p),
                None => text_satisfies(None, p),
            },
            _ => false,
        }
    }

    /// Whether this grant satisfies every predicate.
    pub fn matches(&self, preds: &Vec<Predicate>) -> (r: bool)
        ensures
            r == grant_matches(*self, preds@),
    {
        let mut i: usize = 0;
        while i < preds.len()
            invariant
                i <= preds@.len(),
                forall|j: int| 0 <= j < i ==> #[trigger] grant_satisfies(*self, preds@[j]),
            decreases preds@.len() - i,
        {
            if !self.satisfies(&preds[i]) {
                return false;
            }
            i = i + 1;
        }
        true
    }
}

} // verus!
