//! Properties that relate several operations, proved over their specifications.
use vstd::prelude::*;

use crate::access::level_meets;
use crate::access::opt_view;
use crate::errors::Error;
use crate::errors::ErrorKind;
use crate::filter::text_term_predicates;
use crate::filter::Column;
use crate::filter::Predicate;
use crate::filter::Value;
use crate::search::after_tag;
use crate::search::exact_tag;
use crate::search::partial_tag;
use crate::search::text_search_of;
use crate::search::Search;
use crate::seqs::find_index;
use crate::seqs::lemma_filter_all;
use crate::seqs::lemma_find_index;
use crate::store::access_named;
use crate::store::authorization;
use crate::store::grant_for;
use crate::store::user_kept;
use crate::store::Database;
use crate::users::banner_id_field;
use crate::users::email_field;
use crate::users::first_name_field;
use crate::users::last_name_field;
use crate::users::no_user_criteria;
use crate::users::read_user_pair;
use crate::users::read_user_pairs;
use crate::users::user_predicates;
use crate::users::SearchUser;
use crate::users::UserCriteria;

verus! {

/// Reading `exact:v` (with `v` not empty) gives an exact term on `v`, which
/// compiles to a single equality predicate on `v`.
pub proof fn law_exact_text_compiles_to_equality(v: Seq<char>, t: Search<String>, col: Column)
    requires
        v.len() > 0,
        text_search_of(exact_tag() + v) == Some(t@),
    ensures
        t@ == Search::<Seq<char>>::Exact(v),
        text_term_predicates(col, t).len() == 1,
        text_term_predicates(col, t)[0] matches Predicate::Equals(c, Value::Text(s)) && c == col
            && s@ == v,
{
    let raw = exact_tag() + v;
    assert(raw.subrange(0, 6) =~= exact_tag());
    assert(raw.subrange(6, raw.len() as int) =~= v);
    assert(after_tag(raw, exact_tag()) == Some(v));
}

/// Reading `partial:v` (with `v` not empty) gives a partial term on `v`,
/// which compiles to a single substring predicate on `v`.
pub proof fn law_partial_text_compiles_to_contains(v: Seq<char>, t: Search<String>, col: Column)
    requires
        v.len() > 0,
        text_search_of(partial_tag() + v) == Some(t@),
    ensures
        t@ == Search::<Seq<char>>::Partial(v),
        text_term_predicates(col, t).len() == 1,
        text_term_predicates(col, t)[0] matches Predicate::Contains(c, s) && c == col && s@ == v,
{
    let raw = partial_tag() + v;
    assert(raw[0] == 'p');
    assert(raw.subrange(0, 6)[0] != exact_tag()[0]);
    assert(after_tag(raw, exact_tag()) is None);
    assert(raw.subrange(0, 8) =~= partial_tag());
    assert(raw.subrange(8, raw.len() as int) =~= v);
}

/// Reading pairs leaves every field that no pair names as it was, each
/// field on its own.
proof fn lemma_unnamed_fields_kept(
    start: UserCriteria,
    pairs: Seq<(Seq<char>, Seq<char>)>,
    c: UserCriteria,
)
    requires
        read_user_pairs(start, pairs) == Some(c),
    ensures
        (forall|i: int| 0 <= i < pairs.len() ==> #[trigger] pairs[i].0 != first_name_field())
            ==> c.first_name == start.first_name,
        (forall|i: int| 0 <= i < pairs.len() ==> #[trigger] pairs[i].0 != last_name_field())
            ==> c.last_name == start.last_name,
        (forall|i: int| 0 <= i < pairs.len() ==> #[trigger] pairs[i].0 != banner_id_field())
            ==> c.banner_id == start.banner_id,
        (forall|i: int| 0 <= i < pairs.len() ==> #[trigger] pairs[i].0 != email_field())
            ==> c.email == start.email,
    decreases pairs.len(),
{
    if pairs.len() > 0 {
        let next = read_user_pair(start, pairs[0].0, pairs[0].1)->0;
        let rest = pairs.drop_first();
        lemma_unnamed_fields_kept(next, rest, c);
        assert forall|i: int| 0 <= i < rest.len() implies rest[i] == pairs[i + 1] by {}
        if forall|i: int| 0 <= i < pairs.len() ==> #[trigger] pairs[i].0 != first_name_field() {
            assert(forall|i: int| 0 <= i < rest.len() ==> #[trigger] rest[i].0 != first_name_field()) by {
                assert forall|i: int| 0 <= i < rest.len() implies #[trigger] rest[i].0 != first_name_field() by {
                    assert(pairs[i + 1].0 != first_name_field());
                }
            }
            assert(pairs[0].0 != first_name_field());
        }
        if forall|i: int| 0 <= i < pairs.len() ==> #[trigger] pairs[i].0 != last_name_field() {
            assert(forall|i: int| 0 <= i < rest.len() ==> #[trigger] rest[i].0 != last_name_field()) by {
                assert forall|i: int| 0 <= i < rest.len() implies #[trigger] rest[i].0 != last_name_field() by {
                    assert(pairs[i + 1].0 != last_name_field());
                }
            }
            assert(pairs[0].0 != last_name_field());
        }
        if forall|i: int| 0 <= i < pairs.len() ==> #[trigger] pairs[i].0 != banner_id_field() {
            assert(forall|i: int| 0 <= i < rest.len() ==> #[trigger] rest[i].0 != banner_id_field()) by {
                assert forall|i: int| 0 <= i < rest.len() implies #[trigger] rest[i].0 != banner_id_field() by {
                    assert(pairs[i + 1].0 != banner_id_field());
                }
            }
            assert(pairs[0].0 != banner_id_field());
        }
        if forall|i: int| 0 <= i < pairs.len() ==> #[trigger] pairs[i].0 != email_field() {
            assert(forall|i: int| 0 <= i < rest.len() ==> #[trigger] rest[i].0 != email_field()) by {
                assert forall|i: int| 0 <= i < rest.len() implies #[trigger] rest[i].0 != email_field() by {
                    assert(pairs[i + 1].0 != email_field());
                }
            }
            assert(pairs[0].0 != email_field());
        }
    }
}

/// A field that no query pair names is not searched, whatever the other
/// pairs say.
pub proof fn law_absent_field_not_searched(pairs: Seq<(Seq<char>, Seq<char>)>, c: UserCriteria)
    requires
        read_user_pairs(no_user_criteria(), pairs) == Some(c),
    ensures
        (forall|i: int| 0 <= i < pairs.len() ==> #[trigger] pairs[i].0 != first_name_field())
            ==> c.first_name is NoSearch,
        (forall|i: int| 0 <= i < pairs.len() ==> #[trigger] pairs[i].0 != last_name_field())
            ==> c.last_name is NoSearch,
        (forall|i: int| 0 <= i < pairs.len() ==> #[trigger] pairs[i].0 != banner_id_field())
            ==> c.banner_id is NoSearch,
        (forall|i: int| 0 <= i < pairs.len() ==> #[trigger] pairs[i].0 != email_field())
            ==> c.email is NoSearch,
{
    lemma_unnamed_fields_kept(no_user_criteria(), pairs, c);
}

/// Criteria that search no field compile to no predicate, and a search with
/// them lists every user.
pub proof fn law_no_criteria_lists_everything(db: Database, criteria: SearchUser)
    requires
        criteria@ == no_user_criteria(),
    ensures
        user_predicates(criteria).len() == 0,
        db.users@.filter(user_kept(user_predicates(criteria))) == db.users@,
{
    assert(criteria.first_name is NoSearch);
    assert(criteria.last_name is NoSearch);
    assert(criteria.banner_id is NoSearch);
    assert(criteria.email is NoSearch);
    assert(user_predicates(criteria) =~= Seq::<Predicate>::empty());
    lemma_filter_all(db.users@, user_kept(user_predicates(criteria)));
}

/// Authorization fails as unauthenticated when no user is given, for every capability name.
pub proof fn law_no_user_is_denied(db: Database, access_name: Seq<char>)
    ensures
        authorization(db, None, access_name) == Err::<(), Error>(
            Error { kind: ErrorKind::Unauthenticated },
        ),
{
}

/// A capability name that no capability carries is reported as unknown,
/// for every requesting user.
pub proof fn law_unknown_capability(db: Database, user: u64, access_name: Seq<char>)
    requires
        forall|i: int| 0 <= i < db.accesses@.len() ==> #[trigger] db.accesses@[i].name@ != access_name,
    ensures
        authorization(db, Some(user), access_name) == Err::<(), Error>(
            Error { kind: ErrorKind::UnknownCapability },
        ),
{
    lemma_find_index(db.accesses@, access_named(access_name));
    if find_index(db.accesses@, access_named(access_name)) >= 0 {
        let k = find_index(db.accesses@, access_named(access_name));
        assert(db.accesses@[k].name@ == access_name);
    }
}

/// For a registered capability, authorization succeeds exactly when a grant
/// links the user to it and the grant's level meets the capability's.
pub proof fn law_admitted_iff_granted(db: Database, user: u64, access_name: Seq<char>)
    requires
        db.wf(),
        find_index(db.accesses@, access_named(access_name)) >= 0,
    ensures
        ({
            let a = db.accesses@[find_index(db.accesses@, access_named(access_name))];
            authorization(db, Some(user), access_name) is Ok <==> exists|i: int|
                0 <= i < db.grants@.len() && #[trigger] db.grants@[i].user_id == user
                    && db.grants@[i].access_id == a.id && level_meets(
                    opt_view(db.grants@[i].permission_level),
                    opt_view(a.permission_level),
                )
        }),
{
    let a = db.accesses@[find_index(db.accesses@, access_named(access_name))];
    let f = grant_for(user, a.id);
    lemma_find_index(db.grants@, f);
    let gi = find_index(db.grants@, f);
    if exists|i: int|
        0 <= i < db.grants@.len() && #[trigger] db.grants@[i].user_id == user
            && db.grants@[i].access_id == a.id && level_meets(
            opt_view(db.grants@[i].permission_level),
            opt_view(a.permission_level),
        ) {
        let i = choose|i: int|
            0 <= i < db.grants@.len() && #[trigger] db.grants@[i].user_id == user
                && db.grants@[i].access_id == a.id && level_meets(
                opt_view(db.grants@[i].permission_level),
                opt_view(a.permission_level),
            );
        assert(f(db.grants@[i]));
        assert(gi >= 0);
        if gi < i {
            assert(db.grants@[gi].user_id == db.grants@[i].user_id);
        } else if gi > i {
            assert(!f(db.grants@[i]));
        }
    }
    if authorization(db, Some(user), access_name) is Ok {
        assert(gi >= 0);
        assert(f(db.grants@[gi]));
    }
}

} // verus!
