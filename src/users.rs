//! Users: records, search criteria and requests.
use vstd::prelude::*;

use crate::errors::Error;
use crate::errors::ErrorKind;
use crate::filter::cell_satisfies;
use crate::filter::number_satisfies;
use crate::filter::nullable_term_predicates;
use crate::filter::number_term_predicates;
use crate::filter::predicate_column;
use crate::filter::push_nullable_term;
use crate::filter::push_number_term;
use crate::filter::push_text_term;
use crate::filter::text_cell;
use crate::filter::text_satisfies;
use crate::filter::text_term_predicates;
use crate::filter::Cell;
use crate::filter::Column;
use crate::filter::Predicate;
use crate::query::form_pairs;
use crate::query::pairs_view;
use crate::query::query_pairs;
use crate::query::text_is;
use crate::search::nullable_text_search_of;
use crate::search::number_search_of;
use crate::search::search_int;
use crate::search::text_search_of;
use crate::search::NullableSearch;
use crate::search::Search;

verus! {

/// A stored user.
#[derive(Clone, Debug)]
pub struct User {
    pub id: u64,
    pub first_name: String,
    pub last_name: String,
    pub banner_id: u32,
    pub email: Option<String>,
}

/// A user to be created; the store gives it its id.
#[derive(Clone, Debug)]
pub struct NewUser {
    pub first_name: String,
    pub last_name: String,
    pub banner_id: u32,
    pub email: Option<String>,
}

/// The fields of a user to change; `None` leaves a field as it is.
#[derive(Clone, Debug)]
pub struct PartialUser {
    pub first_name: Option<String>,
    pub last_name: Option<String>,
    pub banner_id: Option<u32>,
    pub email: Option<Option<String>>,
}

/// Search criteria over users, one term per searchable field.
#[derive(Clone, Debug)]
pub struct SearchUser {
    pub first_name: Search<String>,
    pub last_name: Search<String>,
    pub banner_id: Search<u32>,
    pub email: NullableSearch<String>,
}

/// The users that a search found.
#[derive(Clone, Debug)]
pub struct UserList {
    pub users: Vec<User>,
}

/// An operation on users.
#[derive(Clone, Debug)]
pub enum UserRequest {
    SearchUsers(SearchUser),
    GetUser(u64),
    CreateUser(NewUser),
    UpdateUser(u64, PartialUser),
    DeleteUser(u64),
}

/// The outcome of an operation on users.
#[derive(Clone, Debug)]
pub enum UserResponse {
    OneUser(User),
    ManyUsers(UserList),
    NoResponse,
}

/// Search criteria over users, as values.
pub ghost struct UserCriteria {
    pub first_name: Search<Seq<char>>,
    pub last_name: Search<Seq<char>>,
    pub banner_id: Search<int>,
    pub email: NullableSearch<Seq<char>>,
}

impl View for SearchUser {
    type V = UserCriteria;

    open spec fn view(&self) -> UserCriteria {
        UserCriteria {
            first_name: self.first_name@,
            last_name: self.last_name@,
            banner_id: search_int(self.banner_id),
            email: self.email@,
        }
    }
}

pub open spec fn first_name_field() -> Seq<char> {
    seq!['f', 'i', 'r', 's', 't', '_', 'n', 'a', 'm', 'e']
}

pub open spec fn last_name_field() -> Seq<char> {
    seq!['l', 'a', 's', 't', '_', 'n', 'a', 'm', 'e']
}

pub open spec fn banner_id_field() -> Seq<char> {
    seq!['b', 'a', 'n', 'n', 'e', 'r', '_', 'i', 'd']
}

pub open spec fn email_field() -> Seq<char> {
    seq!['e', 'm', 'a', 'i', 'l']
}

/// Criteria that search no field.
pub open spec fn no_user_criteria() -> UserCriteria {
    UserCriteria {
        first_name: Search::NoSearch,
        last_name: Search::NoSearch,
        banner_id: Search::NoSearch,
        email: NullableSearch::NoSearch,
    }
}

/// The criteria after reading one `(field, value)` pair into `c`; `None`
/// where the field is unknown or the value malformed.
pub open spec fn read_user_pair(c: UserCriteria, field: Seq<char>, value: Seq<char>) -> Option<
    UserCriteria,
> {
    if field == first_name_field() {
        match text_search_of(value) {
            Some(t) => Some(UserCriteria { first_name: t, ..c }),
            None => None,
        }
    } else if field == last_name_field() {
        match text_search_of(value) {
            Some(t) => Some(UserCriteria { last_name: t, ..c }),
            None => None,
        }
    } else if field == banner_id_field() {
        match number_search_of(value, u32::MAX as int) {
            Some(t) => Some(UserCriteria { banner_id: t, ..c }),
            None => None,
        }
    } else if field == email_field() {
        match nullable_text_search_of(value) {
            Some(t) => Some(UserCriteria { email: t, ..c }),
            None => None,
        }
    } else {
        None
    }
}

/// The criteria after reading `pairs` in order into `c`; a later pair for a
/// field replaces an earlier one.
pub open spec fn read_user_pairs(c: UserCriteria, pairs: Seq<(Seq<char>, Seq<char>)>) -> Option<
    UserCriteria,
>
    decreases pairs.len(),
{
    if pairs.len() == 0 {
        Some(c)
    } else {
        match read_user_pair(c, pairs[0].0, pairs[0].1) {
            Some(n) => read_user_pairs(n, pairs.drop_first()),
            None => None,
        }
    }
}

/// The predicates that user criteria compile to, in field order.
pub open spec fn user_predicates(s: SearchUser) -> Seq<Predicate> {
    text_term_predicates(Column::FirstName, s.first_name) + text_term_predicates(
        Column::LastName,
        s.last_name,
    ) + number_term_predicates(Column::BannerId, search_int(s.banner_id))
        + nullable_term_predicates(Column::Email, s.email)
}

/// What a user holds in a column; `None` for a column of another table.
pub open spec fn user_cell(u: User, c: Column) -> Option<Cell> {
    match c {
        Column::FirstName => Some(Cell::Text(u.first_name@)),
        Column::LastName => Some(Cell::Text(u.last_name@)),
        Column::BannerId => Some(Cell::Number(u.banner_id as int)),
        Column::Email => Some(text_cell(u.email)),
        _ => None,
    }
}

pub open spec fn user_satisfies(u: User, p: Predicate) -> bool {
    match user_cell(u, predicate_column(p)) {
        Some(c) => cell_satisfies(c, p),
        None => false,
    }
}

/// A user satisfies every predicate.
pub open spec fn user_matches(u: User, preds: Seq<Predicate>) -> bool {
    forall|i: int| 0 <= i < preds.len() ==> #[trigger] user_satisfies(u, preds[i])
}

/// Reads one term, with `field` known to be a user field.
fn read_user_field(c: &mut SearchUser, field: &str, value: &str) -> (r: Result<(), Error>)
    ensures
        match read_user_pair(old(c)@, field@, value@) {
            Some(n) => r is Ok && final(c)@ == n,
            None => r == Err::<(), Error>(Error { kind: ErrorKind::Url }),
        },
{
    let first: Vec<char> = vec!['f', 'i', 'r', 's', 't', '_', 'n', 'a', 'm', 'e'];
    let last: Vec<char> = vec!['l', 'a', 's', 't', '_', 'n', 'a', 'm', 'e'];
    let banner: Vec<char> = vec!['b', 'a', 'n', 'n', 'e', 'r', '_', 'i', 'd'];
    let email: Vec<char> = vec!['e', 'm', 'a', 'i', 'l'];
    assert(first@ =~= first_name_field());
    assert(last@ =~= last_name_field());
    assert(banner@ =~= banner_id_field());
    assert(email@ =~= email_field());
    if text_is(field, &first) {
        c.first_name = Search::<String>::from_query(value)?;
    } else if text_is(field, &last) {
        c.last_name = Search::<String>::from_query(value)?;
    } else if text_is(field, &banner) {
        c.banner_id = Search::<u32>::from_query(value)?;
    } else if text_is(field, &email) {
        c.email = NullableSearch::<String>::from_query(value)?;
    } else {
        return Err(Error::new(ErrorKind::Url));
    }
    Ok(())
}

impl SearchUser {
    /// Criteria that search no field.
    pub fn new() -> (r: SearchUser)
        ensures
            r@ == no_user_criteria(),
    {
        SearchUser {
            first_name: Search::NoSearch,
            last_name: Search::NoSearch,
            banner_id: Search::NoSearch,
            email: NullableSearch::NoSearch,
        }
    }

    /// Reads criteria from `(field, value)` pairs. A field that no pair names
    /// is not searched; an unknown field or a malformed value is an error.
    pub fn from_query(pairs: &Vec<(String, String)>) -> (r: Result<SearchUser, Error>)
        ensures
            match read_user_pairs(no_user_criteria(), pairs_view(pairs@)) {
                Some(c) => r is Ok && r->Ok_0@ == c,
                None => r == Err::<SearchUser, Error>(Error { kind: ErrorKind::Url }),
            },
    {
        let ghost all = pairs_view(pairs@);
        let mut c = SearchUser::new();
        let mut i: usize = 0;
        assert(all.skip(0) =~= all);
        while i < pairs.len()
            invariant
                i <= pairs@.len(),
                all == pairs_view(pairs@),
                read_user_pairs(no_user_criteria(), all) == read_user_pairs(
                    c@,
                    all.skip(i as int),
                ),
            decreases pairs@.len() - i,
        {
            let ghost rest = all.skip(i as int);
            assert(rest[0] == (pairs@[i as int].0@, pairs@[i as int].1@));
            assert(rest.drop_first() =~= all.skip(i + 1));
            let (field, value) = &pairs[i];
            read_user_field(&mut c, field.as_str(), value.as_str())?;
            i = i + 1;
        }
        assert(all.skip(i as int).len() == 0);
        Ok(c)
    }

    /// Reads criteria from a URL query string.
    pub fn from_query_string(raw: &str) -> (r: Result<SearchUser, Error>)
        ensures
            match read_user_pairs(no_user_criteria(), form_pairs(raw@)) {
                Some(c) => r is Ok && r->Ok_0@ == c,
                None => r == Err::<SearchUser, Error>(Error { kind: ErrorKind::Url }),
            },
    {
        let pairs = query_pairs(raw);
        SearchUser::from_query(&pairs)
    }

    /// The predicates these criteria compile to, in field order; a field
    /// that is not searched adds none.
    pub fn predicates(&self) -> (r: Vec<Predicate>)
        ensures
            r@ == user_predicates(*self),
    {
        let mut r: Vec<Predicate> = Vec::new();
        push_text_term(&mut r, Column::FirstName, &self.first_name);
        push_text_term(&mut r, Column::LastName, &self.last_name);
        let banner: Search<u64> = match &self.banner_id {
            Search::NoSearch => Search::NoSearch,
            Search::Exact(v) => Search::Exact(*v as u64),
            Search::Partial(v) => Search::Partial(*v as u64),
        };
        push_number_term(&mut r, Column::BannerId, &banner);
        push_nullable_term(&mut r, Column::Email, &self.email);
        assert(r@ =~= user_predicates(*self));
        r
    }
}

impl User {
    /// Whether this user satisfies `p`.
    pub fn satisfies(&self, p: &Predicate) -> (r: bool)
        ensures
            r == user_satisfies(*self, *p),
    {
        let col = match p {
            Predicate::Equals(c, _) => *c,
            Predicate::Contains(c, _) => *c,
            Predicate::IsNull(c) => *c,
            Predicate::IsNotNull(c) => *c,
        };
        match col {
            Column::FirstName => text_satisfies(Some(&self.first_name), p),
            Column::LastName => text_satisfies(Some(&self.last_name), p),
            Column::BannerId => number_satisfies(self.banner_id as u64, p),
            Column::Email => match &self.email {
                Some(e) => text_satisfies(Some(e), p),
                None => text_satisfies(None, p),
            },
            _ => false,
        }
    }

    /// Whether this user satisfies every predicate.
    pub fn matches(&self, preds: &Vec<Predicate>) -> (r: bool)
        ensures
            r == user_matches(*self, preds@),
    {
        let mut i: usize = 0;
        while i < preds.len()
            invariant
                i <= preds@.len(),
                forall|j: int| 0 <= j < i ==> #[trigger] user_satisfies(*self, preds@[j]),
            decreases preds@.len() - i,
        {
            if !self.satisfies(&preds[i]) {
                return false;
            }
            i = i + 1;
        }
        true
    }
}

} // verus!
