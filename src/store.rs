//! The tables of users, capabilities and grants, held in memory, with the
//! operations of the service on them and the permission check.
use vstd::prelude::*;

use crate::access::grant_matches;
use crate::access::level_meets;
use crate::access::meets_level;
use crate::access::opt_view;
use crate::access::user_access_predicates;
use crate::access::Access;
use crate::access::JoinedUserAccess;
use crate::access::JoinedUserAccessList;
use crate::access::NewAccess;
use crate::access::NewUserAccess;
use crate::access::PartialAccess;
use crate::access::PartialUserAccess;
use crate::access::SearchUserAccess;
use crate::access::UserAccess;
use crate::errors::Error;
use crate::errors::ErrorKind;
use crate::query::text_is;
use crate::search::chars_of;
use crate::seqs::find_index;
use crate::seqs::lemma_filter_step;
use crate::seqs::lemma_find_index;
use crate::seqs::lemma_find_index_at;
use crate::seqs::lemma_find_index_none;
use crate::users::user_matches;
use crate::users::user_predicates;
use crate::users::NewUser;
use crate::users::PartialUser;
use crate::users::SearchUser;
use crate::users::User;
use crate::users::UserList;

verus! {

/// The three tables, with the next identifier that each will hand out.
pub struct Database {
    pub users: Vec<User>,
    pub accesses: Vec<Access>,
    pub grants: Vec<UserAccess>,
    pub next_user_id: u64,
    pub next_access_id: u64,
    pub next_permission_id: u64,
}

pub open spec fn user_has_id(id: u64) -> spec_fn(User) -> bool {
    |u: User| u.id == id
}

pub open spec fn user_kept(preds: Seq<crate::filter::Predicate>) -> spec_fn(User) -> bool {
    |u: User| user_matches(u, preds)
}

pub open spec fn access_has_id(id: u64) -> spec_fn(Access) -> bool {
    |a: Access| a.id == id
}

pub open spec fn access_named(name: Seq<char>) -> spec_fn(Access) -> bool {
    |a: Access| a.name@ == name
}

pub open spec fn grant_has_id(id: u64) -> spec_fn(UserAccess) -> bool {
    |g: UserAccess| g.permission_id == id
}

pub open spec fn grant_for(user_id: u64, access_id: u64) -> spec_fn(UserAccess) -> bool {
    |g: UserAccess| g.user_id == user_id && g.access_id == access_id
}

/// The user as changed by `p`.
pub open spec fn patched_user(u: User, p: PartialUser) -> User {
    User {
        id: u.id,
        first_name: match p.first_name {
            Some(v) => v,
            None => u.first_name,
        },
        last_name: match p.last_name {
            Some(v) => v,
            None => u.last_name,
        },
        banner_id: match p.banner_id {
            Some(v) => v,
            None => u.banner_id,
        },
        email: match p.email {
            Some(v) => v,
            None => u.email,
        },
    }
}

/// The capability as changed by `p`.
pub open spec fn patched_access(a: Access, p: PartialAccess) -> Access {
    Access {
        id: a.id,
        name: match p.name {
            Some(v) => v,
            None => a.name,
        },
        permission_level: match p.permission_level {
            Some(v) => v,
            None => a.permission_level,
        },
    }
}

/// The grant as changed by `p`.
pub open spec fn patched_grant(g: UserAccess, p: PartialUserAccess) -> UserAccess {
    UserAccess {
        permission_level: match p.permission_level {
            Some(v) => v,
            None => g.permission_level,
        },
        ..g
    }
}

/// The verdict on a request for a capability: a user must be given, the
/// capability must be registered (`access`), the user must hold a grant of
/// it (`grant`), and the grant's level must meet the capability's, in that
/// order of precedence.
pub open spec fn verdict(
    requesting_user: Option<u64>,
    access: Option<Access>,
    grant: Option<UserAccess>,
) -> Result<(), Error> {
    if requesting_user is None {
        Err(Error { kind: ErrorKind::Unauthenticated })
    } else {
        match access {
            None => Err(Error { kind: ErrorKind::UnknownCapability }),
            Some(a) => match grant {
                None => Err(Error { kind: ErrorKind::Forbidden }),
                Some(g) => if level_meets(opt_view(g.permission_level), opt_view(a.permission_level)) {
                    Ok(())
                } else {
                    Err(Error { kind: ErrorKind::InsufficientLevel })
                },
            },
        }
    }
}

/// The capability named `name` in the table, if any.
pub open spec fn access_by_name(db: Database, name: Seq<char>) -> Option<Access> {
    let ai = find_index(db.accesses@, access_named(name));
    if ai < 0 {
        None
    } else {
        Some(db.accesses@[ai])
    }
}

/// The grant linking `user` to `access`, if any.
pub open spec fn grant_of(db: Database, user: u64, access: Access) -> Option<UserAccess> {
    let gi = find_index(db.grants@, grant_for(user, access.id));
    if gi < 0 {
        None
    } else {
        Some(db.grants@[gi])
    }
}

/// The verdict of the permission check on the tables of `db`.
pub open spec fn authorization(db: Database, requesting_user: Option<u64>, name: Seq<char>) -> Result<
    (),
    Error,
> {
    let access = access_by_name(db, name);
    let grant = match (requesting_user, access) {
        (Some(u), Some(a)) => grant_of(db, u, a),
        _ => None,
    };
    verdict(requesting_user, access, grant)
}

/// A grant joined with its holder.
pub open spec fn joined(g: UserAccess, u: User) -> JoinedUserAccess {
    JoinedUserAccess {
        permission_id: g.permission_id,
        user_id: g.user_id,
        access_id: g.access_id,
        first_name: u.first_name,
        last_name: u.last_name,
        banner_id: u.banner_id,
    }
}

/// The grants among `grants` that satisfy `preds` and whose user and
/// capability both exist, each joined with its user, in order.
pub open spec fn joined_rows(db: Database, grants: Seq<UserAccess>, preds: Seq<crate::filter::Predicate>) -> Seq<
    JoinedUserAccess,
>
    decreases grants.len(),
{
    if grants.len() == 0 {
        seq![]
    } else {
        let prev = joined_rows(db, grants.drop_last(), preds);
        let g = grants.last();
        let ui = find_index(db.users@, user_has_id(g.user_id));
        if grant_matches(g, preds) && ui >= 0 && find_index(db.accesses@, access_has_id(g.access_id))
            >= 0 {
            prev.push(joined(g, db.users@[ui]))
        } else {
            prev
        }
    }
}

/// Decides a request for a capability from what the lookups found: the
/// capability registered under the requested name, and the requesting
/// user's grant of it.
pub fn decide_authorization(
    requesting_user: Option<u64>,
    access: Option<&Access>,
    grant: Option<&UserAccess>,
) -> (r: Result<(), Error>)
    ensures
        r == verdict(
            requesting_user,
            match access {
                Some(a) => Some(*a),
                None => None,
            },
            match grant {
                Some(g) => Some(*g),
                None => None,
            },
        ),
{
    if requesting_user.is_none() {
        return Err(Error::new(ErrorKind::Unauthenticated));
    }
    let a = match access {
        Some(a) => a,
        None => return Err(Error::new(ErrorKind::UnknownCapability)),
    };
    let g = match grant {
        Some(g) => g,
        None => return Err(Error::new(ErrorKind::Forbidden)),
    };
    if meets_level(&g.permission_level, &a.permission_level) {
        Ok(())
    } else {
        Err(Error::new(ErrorKind::InsufficientLevel))
    }
}

impl User {
    /// A copy of this user.
    pub fn duplicate(&self) -> (r: User)
        ensures
            r == *self,
    {
        User {
            id: self.id,
            first_name: self.first_name.clone(),
            last_name: self.last_name.clone(),
            banner_id: self.banner_id,
            email: copy_text(&self.email),
        }
    }
}

impl Access {
    /// A copy of this capability.
    pub fn duplicate(&self) -> (r: Access)
        ensures
            r == *self,
    {
        Access {
            id: self.id,
            name: self.name.clone(),
            permission_level: copy_text(&self.permission_level),
        }
    }
}

impl UserAccess {
    /// A copy of this grant.
    pub fn duplicate(&self) -> (r: UserAccess)
        ensures
            r == *self,
    {
        UserAccess {
            permission_id: self.permission_id,
            user_id: self.user_id,
            access_id: self.access_id,
            permission_level: copy_text(&self.permission_level),
        }
    }
}

fn copy_text(s: &Option<String>) -> (r: Option<String>)
    ensures
        r == *s,
{
    match s {
        Some(t) => Some(t.clone()),
        None => None,
    }
}

impl Database {
    /// The tables' invariant: identifiers increase along each table and stay
    /// below the next one to be handed out; capability names are distinct;
    /// no two grants link the same user to the same capability.
    pub open spec fn wf(&self) -> bool {
        &&& forall|i: int| 0 <= i < self.users@.len() ==> #[trigger] self.users@[i].id < self.next_user_id
        &&& forall|i: int, j: int|
            0 <= i < j < self.users@.len() ==> #[trigger] self.users@[i].id < #[trigger] self.users@[j].id
        &&& forall|i: int| 0 <= i < self.accesses@.len() ==> #[trigger] self.accesses@[i].id < self.next_access_id
        &&& forall|i: int, j: int|
            0 <= i < j < self.accesses@.len() ==> #[trigger] self.accesses@[i].id < #[trigger] self.accesses@[j].id
        &&& forall|i: int, j: int|
            0 <= i < j < self.accesses@.len() ==> #[trigger] self.accesses@[i].name@ != #[trigger] self.accesses@[j].name@
        &&& forall|i: int| 0 <= i < self.grants@.len() ==> #[trigger] self.grants@[i].permission_id < self.next_permission_id
        &&& forall|i: int, j: int|
            0 <= i < j < self.grants@.len() ==> #[trigger] self.grants@[i].permission_id < #[trigger] self.grants@[j].permission_id
        &&& forall|i: int, j: int|
            0 <= i < j < self.grants@.len() ==> !(#[trigger] self.grants@[i].user_id == #[trigger] self.grants@[j].user_id
                && self.grants@[i].access_id == self.grants@[j].access_id)
    }

    /// Empty tables.
    pub fn new() -> (r: Database)
        ensures
            r.wf(),
            r.users@.len() == 0,
            r.accesses@.len() == 0,
            r.grants@.len() == 0,
            r.next_user_id == 1,
            r.next_access_id == 1,
            r.next_permission_id == 1,
    {
        Database {
            users: Vec::new(),
            accesses: Vec::new(),
            grants: Vec::new(),
            next_user_id: 1,
            next_access_id: 1,
            next_permission_id: 1,
        }
    }

    fn user_index(&self, id: u64) -> (r: Option<usize>)
        ensures
            match r {
                Some(i) => i < self.users@.len() && i as int == find_index(self.users@, user_has_id(id)),
                None => find_index(self.users@, user_has_id(id)) == -1,
            },
    {
        let mut i: usize = 0;
        while i < self.users.len()
            invariant
                i <= self.users@.len(),
                forall|k: int| 0 <= k < i ==> !(#[trigger] user_has_id(id)(self.users@[k])),
            decreases self.users@.len() - i,
        {
            if self.users[i].id == id {
                proof {
                    lemma_find_index_at(self.users@, user_has_id(id), i as int);
                }
                return Some(i);
            }
            i = i + 1;
        }
        proof {
            lemma_find_index_none(self.users@, user_has_id(id));
        }
        None
    }

    /// The users that satisfy the criteria, in table order.
    pub fn search_users(&self, criteria: &SearchUser) -> (r: UserList)
        ensures
            r.users@ == self.users@.filter(user_kept(user_predicates(*criteria))),
    {
        let preds = criteria.predicates();
        let ghost f = user_kept(user_predicates(*criteria));
        let mut found: Vec<User> = Vec::new();
        let mut i: usize = 0;
        proof {
            reveal(Seq::filter);
            assert(self.users@.take(0) =~= Seq::<User>::empty());
        }
        while i < self.users.len()
            invariant
                i <= self.users@.len(),
                preds@ == user_predicates(*criteria),
                f == user_kept(user_predicates(*criteria)),
                found@ == self.users@.take(i as int).filter(f),
            decreases self.users@.len() - i,
        {
            proof {
                lemma_filter_step(self.users@, i as int, f);
            }
            if self.users[i].matches(&preds) {
                found.push(self.users[i].duplicate());
            }
            i = i + 1;
        }
        assert(self.users@.take(i as int) =~= self.users@);
        UserList { users: found }
    }

    /// The user with identifier `id`.
    pub fn get_user(&self, id: u64) -> (r: Result<User, Error>)
        ensures
            find_index(self.users@, user_has_id(id)) >= 0 ==> r == Ok::<User, Error>(
                self.users@[find_index(self.users@, user_has_id(id))],
            ),
            find_index(self.users@, user_has_id(id)) < 0 ==> r == Err::<User, Error>(
                Error { kind: ErrorKind::NotFound },
            ),
    {
        match self.user_index(id) {
            Some(i) => Ok(self.users[i].duplicate()),
            None => Err(Error::new(ErrorKind::NotFound)),
        }
    }

    /// Adds a user under the next identifier and returns it; fails with
    /// `Database`, changing nothing, once identifiers are used up.
    pub fn create_user(&mut self, user: NewUser) -> (r: Result<User, Error>)
        requires
            old(self).wf(),
        ensures
            final(self).wf(),
            old(self).next_user_id == u64::MAX ==> r == Err::<User, Error>(
                Error { kind: ErrorKind::Database },
            ) && *final(self) == *old(self),
            old(self).next_user_id < u64::MAX ==> {
                let made = User {
                    id: old(self).next_user_id,
                    first_name: user.first_name,
                    last_name: user.last_name,
                    banner_id: user.banner_id,
                    email: user.email,
                };
                &&& r == Ok::<User, Error>(made)
                &&& final(self).users@ == old(self).users@.push(made)
                &&& final(self).next_user_id == old(self).next_user_id + 1
                &&& final(self).accesses == old(self).accesses
                &&& final(self).grants == old(self).grants
                &&& final(self).next_access_id == old(self).next_access_id
                &&& final(self).next_permission_id == old(self).next_permission_id
            },
    {
        if self.next_user_id == u64::MAX {
            return Err(Error::new(ErrorKind::Database));
        }
        let made = User {
            id: self.next_user_id,
            first_name: user.first_name,
            last_name: user.last_name,
            banner_id: user.banner_id,
            email: user.email,
        };
        self.users.push(made.duplicate());
        self.next_user_id = self.next_user_id + 1;
        Ok(made)
    }

    /// Changes the given fields of the user with identifier `id`, if there
    /// is one; every other row stays as it was.
    pub fn update_user(&mut self, id: u64, user: PartialUser) -> (r: Result<(), Error>)
        requires
            old(self).wf(),
        ensures
            final(self).wf(),
            r is Ok,
            final(self).users@.len() == old(self).users@.len(),
            forall|i: int|
                0 <= i < old(self).users@.len() ==> #[trigger] final(self).users@[i] == if old(
                    self,
                ).users@[i].id == id {
                    patched_user(old(self).users@[i], user)
                } else {
                    old(self).users@[i]
                },
            final(self).accesses == old(self).accesses,
            final(self).grants == old(self).grants,
            final(self).next_user_id == old(self).next_user_id,
            final(self).next_access_id == old(self).next_access_id,
            final(self).next_permission_id == old(self).next_permission_id,
    {
        match self.user_index(id) {
            Some(i) => {
                proof {
                    lemma_find_index(self.users@, user_has_id(id));
                }
                let old_user = self.users[i].duplicate();
                let patched = User {
                    id: old_user.id,
                    first_name: match user.first_name {
                        Some(v) => v,
                        None => old_user.first_name,
                    },
                    last_name: match user.last_name {
                        Some(v) => v,
                        None => old_user.last_name,
                    },
                    banner_id: match user.banner_id {
                        Some(v) => v,
                        None => old_user.banner_id,
                    },
                    email: match user.email {
                        Some(v) => v,
                        None => old_user.email,
                    },
                };
                self.users.set(i, patched);
            },
            None => {
                proof {
                    lemma_find_index(self.users@, user_has_id(id));
                }
            },
        }
        Ok(())
    }

    /// Removes the user with identifier `id`, if there is one; removing one
    /// that does not exist changes nothing.
    pub fn delete_user(&mut self, id: u64) -> (r: Result<(), Error>)
        requires
            old(self).wf(),
        ensures
            final(self).wf(),
            r is Ok,
            find_index(old(self).users@, user_has_id(id)) >= 0 ==> final(self).users@ == old(
                self,
            ).users@.remove(find_index(old(self).users@, user_has_id(id))),
            find_index(old(self).users@, user_has_id(id)) < 0 ==> *final(self) == *old(self),
            final(self).accesses == old(self).accesses,
            final(self).grants == old(self).grants,
            final(self).next_user_id == old(self).next_user_id,
            final(self).next_access_id == old(self).next_access_id,
            final(self).next_permission_id == old(self).next_permission_id,
    {
        let ghost before = self.users@;
        match self.user_index(id) {
            Some(i) => {
                self.users.remove(i);
                assert forall|a: int, b: int|
                    0 <= a < b < self.users@.len() implies #[trigger] self.users@[a].id
                    < #[trigger] self.users@[b].id by {
                    let a0 = if a < i { a } else { a + 1 };
                    let b0 = if b < i { b } else { b + 1 };
                    assert(self.users@[a] == before[a0]);
                    assert(self.users@[b] == before[b0]);
                }
                assert forall|a: int| 0 <= a < self.users@.len() implies #[trigger] self.users@[a].id
                    < self.next_user_id by {
                    let a0 = if a < i { a } else { a + 1 };
                    assert(self.users@[a] == before[a0]);
                }
            },
            None => {},
        }
        Ok(())
    }

    fn access_index(&self, id: u64) -> (r: Option<usize>)
        ensures
            match r {
                Some(i) => i < self.accesses@.len() && i as int == find_index(self.accesses@, access_has_id(id)),
                None => find_index(self.accesses@, access_has_id(id)) == -1,
            },
    {
        let mut i: usize = 0;
        while i < self.accesses.len()
            invariant
                i <= self.accesses@.len(),
                forall|k: int| 0 <= k < i ==> !(#[trigger] access_has_id(id)(self.accesses@[k])),
            decreases self.accesses@.len() - i,
        {
            if self.accesses[i].id == id {
                proof {
                    lemma_find_index_at(self.accesses@, access_has_id(id), i as int);
                }
                return Some(i);
            }
            i = i + 1;
        }
        proof {
            lemma_find_index_none(self.accesses@, access_has_id(id));
        }
        None
    }

    fn access_name_index(&self, name: &str) -> (r: Option<usize>)
        ensures
            match r {
                Some(i) => i < self.accesses@.len() && i as int == find_index(self.accesses@, access_named(name@)),
                None => find_index(self.accesses@, access_named(name@)) == -1,
            },
    {
        let word = chars_of(name);
        let mut i: usize = 0;
        while i < self.accesses.len()
            invariant
                i <= self.accesses@.len(),
                word@ == name@,
                forall|k: int| 0 <= k < i ==> !(#[trigger] access_named(name@)(self.accesses@[k])),
            decreases self.accesses@.len() - i,
        {
            if text_is(self.accesses[i].name.as_str(), &word) {
                proof {
                    lemma_find_index_at(self.accesses@, access_named(name@), i as int);
                }
                return Some(i);
            }
            i = i + 1;
        }
        proof {
            lemma_find_index_none(self.accesses@, access_named(name@));
        }
        None
    }

    fn grant_index(&self, id: u64) -> (r: Option<usize>)
        ensures
            match r {
                Some(i) => i < self.grants@.len() && i as int == find_index(self.grants@, grant_has_id(id)),
                None => find_index(self.grants@, grant_has_id(id)) == -1,
            },
    {
        let mut i: usize = 0;
        while i < self.grants.len()
            invariant
                i <= self.grants@.len(),
                forall|k: int| 0 <= k < i ==> !(#[trigger] grant_has_id(id)(self.grants@[k])),
            decreases self.grants@.len() - i,
        {
            if self.grants[i].permission_id == id {
                proof {
                    lemma_find_index_at(self.grants@, grant_has_id(id), i as int);
                }
                return Some(i);
            }
            i = i + 1;
        }
        proof {
            lemma_find_index_none(self.grants@, grant_has_id(id));
        }
        None
    }

    fn grant_pair_index(&self, user_id: u64, access_id: u64) -> (r: Option<usize>)
        ensures
            match r {
                Some(i) => i < self.grants@.len() && i as int == find_index(self.grants@, grant_for(user_id, access_id)),
                None => find_index(self.grants@, grant_for(user_id, access_id)) == -1,
            },
    {
        let mut i: usize = 0;
        while i < self.grants.len()
            invariant
                i <= self.grants@.len(),
                forall|k: int| 0 <= k < i ==> !(#[trigger] grant_for(user_id, access_id)(self.grants@[k])),
            decreases self.grants@.len() - i,
        {
            if self.grants[i].user_id == user_id && self.grants[i].access_id == access_id {
                proof {
                    lemma_find_index_at(self.grants@, grant_for(user_id, access_id), i as int);
                }
                return Some(i);
            }
            i = i + 1;
        }
        proof {
            lemma_find_index_none(self.grants@, grant_for(user_id, access_id));
        }
        None
    }

    /// The capability with identifier `id`.
    pub fn get_access(&self, id: u64) -> (r: Result<Access, Error>)
        ensures
            find_index(self.accesses@, access_has_id(id)) >= 0 ==> r == Ok::<Access, Error>(
                self.accesses@[find_index(self.accesses@, access_has_id(id))],
            ),
            find_index(self.accesses@, access_has_id(id)) < 0 ==> r == Err::<Access, Error>(
                Error { kind: ErrorKind::NotFound },
            ),
    {
        match self.access_index(id) {
            Some(i) => Ok(self.accesses[i].duplicate()),
            None => Err(Error::new(ErrorKind::NotFound)),
        }
    }

    /// Registers a capability under the next identifier and returns it;
    /// fails with `Database`, changing nothing, where the name is taken or
    /// identifiers are used up.
    pub fn create_access(&mut self, access: NewAccess) -> (r: Result<Access, Error>)
        requires
            old(self).wf(),
        ensures
            final(self).wf(),
            (find_index(old(self).accesses@, access_named(access.name@)) >= 0
                || old(self).next_access_id == u64::MAX) ==> r == Err::<Access, Error>(
                Error { kind: ErrorKind::Database },
            ) && *final(self) == *old(self),
            !(find_index(old(self).accesses@, access_named(access.name@)) >= 0
                || old(self).next_access_id == u64::MAX) ==> {
                let made = Access {
                    id: old(self).next_access_id,
                    name: access.name,
                    permission_level: access.permission_level,
                };
                &&& r == Ok::<Access, Error>(made)
                &&& final(self).accesses@ == old(self).accesses@.push(made)
                &&& final(self).next_access_id == old(self).next_access_id + 1
                &&& final(self).users == old(self).users
                &&& final(self).grants == old(self).grants
                &&& final(self).next_user_id == old(self).next_user_id
                &&& final(self).next_permission_id == old(self).next_permission_id
            },
    {
        if self.access_name_index(access.name.as_str()).is_some() || self.next_access_id == u64::MAX {
            return Err(Error::new(ErrorKind::Database));
        }
        proof {
            lemma_find_index(self.accesses@, access_named(access.name@));
        }
        let made = Access {
            id: self.next_access_id,
            name: access.name,
            permission_level: access.permission_level,
        };
        let ghost before = self.accesses@;
        self.accesses.push(made.duplicate());
        self.next_access_id = self.next_access_id + 1;
        proof {
            assert forall|a: int, b: int|
                0 <= a < b < self.accesses@.len() implies #[trigger] self.accesses@[a].name@
                != #[trigger] self.accesses@[b].name@ by {
                if b == before.len() {
                    assert(!access_named(made.name@)(before[a]));
                }
            }
        }
        Ok(made)
    }

    /// Changes the given fields of the capability with identifier `id`, if
    /// there is one; fails with `Database`, changing nothing, where the new
    /// name belongs to another capability.
    pub fn update_access(&mut self, id: u64, access: PartialAccess) -> (r: Result<(), Error>)
        requires
            old(self).wf(),
        ensures
            final(self).wf(),
            ({
                let clash = match access.name {
                    Some(n) => {
                        let k = find_index(old(self).accesses@, access_named(n@));
                        k >= 0 && old(self).accesses@[k].id != id
                    },
                    None => false,
                };
                &&& clash ==> r == Err::<(), Error>(Error { kind: ErrorKind::Database })
                    && *final(self) == *old(self)
                &&& !clash ==> r is Ok && final(self).accesses@.len() == old(self).accesses@.len()
                    && (forall|i: int|
                    0 <= i < old(self).accesses@.len() ==> #[trigger] final(self).accesses@[i]
                        == if old(self).accesses@[i].id == id {
                        patched_access(old(self).accesses@[i], access)
                    } else {
                        old(self).accesses@[i]
                    }) && final(self).users == old(self).users && final(self).grants == old(
                    self,
                ).grants && final(self).next_user_id == old(self).next_user_id
                    && final(self).next_access_id == old(self).next_access_id
                    && final(self).next_permission_id == old(self).next_permission_id
            }),
    {
        proof {
            lemma_find_index(self.accesses@, access_has_id(id));
        }
        match &access.name {
            Some(n) => {
                proof {
                    lemma_find_index(self.accesses@, access_named(n@));
                }
                match self.access_name_index(n.as_str()) {
                    Some(k) => {
                        if self.accesses[k].id != id {
                            return Err(Error::new(ErrorKind::Database));
                        }
                    },
                    None => {},
                }
            },
            None => {},
        }
        match self.access_index(id) {
            Some(i) => {
                let ghost before = self.accesses@;
                let current = self.accesses[i].duplicate();
                let patched = Access {
                    id: current.id,
                    name: match access.name {
                        Some(v) => v,
                        None => current.name,
                    },
                    permission_level: match access.permission_level {
                        Some(v) => v,
                        None => current.permission_level,
                    },
                };
                self.accesses.set(i, patched);
                proof {
                    assert forall|a: int, b: int|
                        0 <= a < b < self.accesses@.len() implies #[trigger] self.accesses@[a].name@
                        != #[trigger] self.accesses@[b].name@ by {
                        if a == i || b == i {
                            let other = if a == i { b } else { a };
                            if let Some(n) = access.name {
                                let k = find_index(before, access_named(n@));
                                if before[other].name@ == n@ {
                                    assert(access_named(n@)(before[other]));
                                    assert(k >= 0);
                                    if k != other {
                                        assert(before[k].name@ == before[other].name@);
                                    }
                                    assert(before[k].id == id);
                                    assert(before[i as int].id == id);
                                    if k != i {
                                        assert(before[k].id != before[i as int].id);
                                    }
                                }
                            }
                        }
                    }
                }
            },
            None => {},
        }
        Ok(())
    }

    /// Removes the capability with identifier `id`, if there is one;
    /// removing one that does not exist changes nothing.
    pub fn delete_access(&mut self, id: u64) -> (r: Result<(), Error>)
        requires
            old(self).wf(),
        ensures
            final(self).wf(),
            r is Ok,
            find_index(old(self).accesses@, access_has_id(id)) >= 0 ==> final(self).accesses@
                == old(self).accesses@.remove(find_index(old(self).accesses@, access_has_id(id))),
            find_index(old(self).accesses@, access_has_id(id)) < 0 ==> *final(self) == *old(self),
            final(self).users == old(self).users,
            final(self).grants == old(self).grants,
            final(self).next_user_id == old(self).next_user_id,
            final(self).next_access_id == old(self).next_access_id,
            final(self).next_permission_id == old(self).next_permission_id,
    {
        let ghost before = self.accesses@;
        match self.access_index(id) {
            Some(i) => {
                self.accesses.remove(i);
                assert forall|a: int, b: int|
                    0 <= a < b < self.accesses@.len() implies #[trigger] self.accesses@[a].id
                    < #[trigger] self.accesses@[b].id && self.accesses@[a].name@ != self.accesses@[b].name@ by {
                    let a0 = if a < i { a } else { a + 1 };
                    let b0 = if b < i { b } else { b + 1 };
                    assert(self.accesses@[a] == before[a0]);
                    assert(self.accesses@[b] == before[b0]);
                }
                assert forall|a: int| 0 <= a < self.accesses@.len() implies #[trigger] self.accesses@[a].id
                    < self.next_access_id by {
                    let a0 = if a < i { a } else { a + 1 };
                    assert(self.accesses@[a] == before[a0]);
                }
            },
            None => {},
        }
        Ok(())
    }
}

impl Database {
    /// The grant with identifier `permission_id`.
    pub fn get_user_access(&self, permission_id: u64) -> (r: Result<UserAccess, Error>)
        ensures
            find_index(self.grants@, grant_has_id(permission_id)) >= 0 ==> r == Ok::<
                UserAccess,
                Error,
            >(self.grants@[find_index(self.grants@, grant_has_id(permission_id))]),
            find_index(self.grants@, grant_has_id(permission_id)) < 0 ==> r == Err::<
                UserAccess,
                Error,
            >(Error { kind: ErrorKind::NotFound }),
    {
        match self.grant_index(permission_id) {
            Some(i) => Ok(self.grants[i].duplicate()),
            None => Err(Error::new(ErrorKind::NotFound)),
        }
    }

    /// Whether the user holds a grant of the capability.
    pub fn check_user_access(&self, user_id: u64, access_id: u64) -> (r: Result<bool, Error>)
        ensures
            r == Ok::<bool, Error>(
                exists|i: int|
                    0 <= i < self.grants@.len() && #[trigger] self.grants@[i].user_id == user_id
                        && self.grants@[i].access_id == access_id,
            ),
    {
        proof {
            lemma_find_index(self.grants@, grant_for(user_id, access_id));
        }
        let found = self.grant_pair_index(user_id, access_id).is_some();
        proof {
            if !found {
                assert forall|i: int| 0 <= i < self.grants@.len() implies !(#[trigger] self.grants@[i].user_id == user_id
                    && self.grants@[i].access_id == access_id) by {
                    assert(!grant_for(user_id, access_id)(self.grants@[i]));
                }
            } else {
                let k = find_index(self.grants@, grant_for(user_id, access_id));
                assert(grant_for(user_id, access_id)(self.grants@[k]));
            }
        }
        Ok(found)
    }

    /// Grants a capability to a user under the next identifier and returns
    /// the grant; fails with `Database`, changing nothing, where the user
    /// already holds a grant of it or identifiers are used up.
    pub fn create_user_access(&mut self, grant: NewUserAccess) -> (r: Result<UserAccess, Error>)
        requires
            old(self).wf(),
        ensures
            final(self).wf(),
            ((exists|i: int|
                0 <= i < old(self).grants@.len() && #[trigger] old(self).grants@[i].user_id
                    == grant.user_id && old(self).grants@[i].access_id == grant.access_id)
                || old(self).next_permission_id == u64::MAX) ==> r == Err::<UserAccess, Error>(
                Error { kind: ErrorKind::Database },
            ) && *final(self) == *old(self),
            !((exists|i: int|
                0 <= i < old(self).grants@.len() && #[trigger] old(self).grants@[i].user_id
                    == grant.user_id && old(self).grants@[i].access_id == grant.access_id)
                || old(self).next_permission_id == u64::MAX) ==> {
                let made = UserAccess {
                    permission_id: old(self).next_permission_id,
                    user_id: grant.user_id,
                    access_id: grant.access_id,
                    permission_level: grant.permission_level,
                };
                &&& r == Ok::<UserAccess, Error>(made)
                &&& final(self).grants@ == old(self).grants@.push(made)
                &&& final(self).next_permission_id == old(self).next_permission_id + 1
                &&& final(self).users == old(self).users
                &&& final(self).accesses == old(self).accesses
                &&& final(self).next_user_id == old(self).next_user_id
                &&& final(self).next_access_id == old(self).next_access_id
            },
    {
        proof {
            lemma_find_index(self.grants@, grant_for(grant.user_id, grant.access_id));
        }
        match self.grant_pair_index(grant.user_id, grant.access_id) {
            Some(k) => {
                assert(grant_for(grant.user_id, grant.access_id)(self.grants@[k as int]));
                return Err(Error::new(ErrorKind::Database));
            },
            None => {},
        }
        assert forall|i: int| 0 <= i < self.grants@.len() implies !(#[trigger] self.grants@[i].user_id
            == grant.user_id && self.grants@[i].access_id == grant.access_id) by {
            assert(!grant_for(grant.user_id, grant.access_id)(self.grants@[i]));
        }
        if self.next_permission_id == u64::MAX {
            return Err(Error::new(ErrorKind::Database));
        }
        let made = UserAccess {
            permission_id: self.next_permission_id,
            user_id: grant.user_id,
            access_id: grant.access_id,
            permission_level: grant.permission_level,
        };
        let ghost before = self.grants@;
        self.grants.push(made.duplicate());
        self.next_permission_id = self.next_permission_id + 1;
        proof {
            assert forall|a: int, b: int|
                0 <= a < b < self.grants@.len() implies !(#[trigger] self.grants@[a].user_id
                == #[trigger] self.grants@[b].user_id && self.grants@[a].access_id
                == self.grants@[b].access_id) by {
                if b == before.len() {
                    assert(self.grants@[a] == before[a]);
                }
            }
        }
        Ok(made)
    }

    /// Changes the permission level of the grant with identifier
    /// `permission_id`, if there is one; every other row stays as it was.
    pub fn update_user_access(&mut self, permission_id: u64, grant: PartialUserAccess) -> (r: Result<(), Error>)
        requires
            old(self).wf(),
        ensures
            final(self).wf(),
            r is Ok,
            final(self).grants@.len() == old(self).grants@.len(),
            forall|i: int|
                0 <= i < old(self).grants@.len() ==> #[trigger] final(self).grants@[i] == if old(
                    self,
                ).grants@[i].permission_id == permission_id {
                    patched_grant(old(self).grants@[i], grant)
                } else {
                    old(self).grants@[i]
                },
            final(self).users == old(self).users,
            final(self).accesses == old(self).accesses,
            final(self).next_user_id == old(self).next_user_id,
            final(self).next_access_id == old(self).next_access_id,
            final(self).next_permission_id == old(self).next_permission_id,
    {
        proof {
            lemma_find_index(self.grants@, grant_has_id(permission_id));
        }
        match self.grant_index(permission_id) {
            Some(i) => {
                let current = self.grants[i].duplicate();
                let patched = UserAccess {
                    permission_id: current.permission_id,
                    user_id: current.user_id,
                    access_id: current.access_id,
                    permission_level: match grant.permission_level {
                        Some(v) => v,
                        None => current.permission_level,
                    },
                };
                self.grants.set(i, patched);
            },
            None => {},
        }
        Ok(())
    }

    /// Revokes the grant with identifier `permission_id`, if there is one;
    /// revoking one that does not exist changes nothing.
    pub fn delete_user_access(&mut self, permission_id: u64) -> (r: Result<(), Error>)
        requires
            old(self).wf(),
        ensures
            final(self).wf(),
            r is Ok,
            find_index(old(self).grants@, grant_has_id(permission_id)) >= 0 ==> final(self).grants@
                == old(self).grants@.remove(find_index(old(self).grants@, grant_has_id(permission_id))),
            (forall|i: int| 0 <= i < old(self).grants@.len() ==> #[trigger] old(self).grants@[i].permission_id != permission_id)
                ==> *final(self) == *old(self),
            find_index(old(self).grants@, grant_has_id(permission_id)) < 0 ==> *final(self) == *old(self),
            final(self).users == old(self).users,
            final(self).accesses == old(self).accesses,
            final(self).next_user_id == old(self).next_user_id,
            final(self).next_access_id == old(self).next_access_id,
            final(self).next_permission_id == old(self).next_permission_id,
    {
        proof {
            lemma_find_index(self.grants@, grant_has_id(permission_id));
        }
        let ghost before = self.grants@;
        match self.grant_index(permission_id) {
            Some(i) => {
                assert(grant_has_id(permission_id)(before[i as int]));
                self.grants.remove(i);
                assert forall|a: int, b: int|
                    0 <= a < b < self.grants@.len() implies #[trigger] self.grants@[a].permission_id
                    < #[trigger] self.grants@[b].permission_id && !(self.grants@[a].user_id
                    == self.grants@[b].user_id && self.grants@[a].access_id
                    == self.grants@[b].access_id) by {
                    let a0 = if a < i { a } else { a + 1 };
                    let b0 = if b < i { b } else { b + 1 };
                    assert(self.grants@[a] == before[a0]);
                    assert(self.grants@[b] == before[b0]);
                }
                assert forall|a: int| 0 <= a < self.grants@.len() implies #[trigger] self.grants@[a].permission_id
                    < self.next_permission_id by {
                    let a0 = if a < i { a } else { a + 1 };
                    assert(self.grants@[a] == before[a0]);
                }
            },
            None => {},
        }
        Ok(())
    }

    /// The grants that satisfy the criteria and whose user and capability
    /// both exist, joined with their users, in table order.
    pub fn search_user_access(&self, criteria: &SearchUserAccess) -> (r: JoinedUserAccessList)
        ensures
            r.entries@ == joined_rows(*self, self.grants@, user_access_predicates(*criteria)),
    {
        let preds = criteria.predicates();
        let ghost ps = user_access_predicates(*criteria);
        let mut found: Vec<JoinedUserAccess> = Vec::new();
        let mut i: usize = 0;
        assert(self.grants@.take(0).len() == 0);
        while i < self.grants.len()
            invariant
                i <= self.grants@.len(),
                preds@ == ps,
                ps == user_access_predicates(*criteria),
                found@ == joined_rows(*self, self.grants@.take(i as int), ps),
            decreases self.grants@.len() - i,
        {
            let ghost upto = self.grants@.take(i + 1);
            assert(upto.drop_last() =~= self.grants@.take(i as int));
            assert(upto.last() == self.grants@[i as int]);
            let g = &self.grants[i];
            if g.matches(&preds) {
                match self.user_index(g.user_id) {
                    Some(ui) => {
                        if self.access_index(g.access_id).is_some() {
                            let u = &self.users[ui];
                            found.push(
                                JoinedUserAccess {
                                    permission_id: g.permission_id,
                                    user_id: g.user_id,
                                    access_id: g.access_id,
                                    first_name: u.first_name.clone(),
                                    last_name: u.last_name.clone(),
                                    banner_id: u.banner_id,
                                },
                            );
                        }
                    },
                    None => {},
                }
            }
            i = i + 1;
        }
        assert(self.grants@.take(i as int) =~= self.grants@);
        JoinedUserAccessList { entries: found }
    }

    /// The permission check: whether `requesting_user` may perform an
    /// operation guarded by the capability named `access_name`.
    pub fn authorize(&self, requesting_user: Option<u64>, access_name: &str) -> (r: Result<(), Error>)
        ensures
            r == authorization(*self, requesting_user, access_name@),
    {
        let access = match self.access_name_index(access_name) {
            Some(ai) => Some(&self.accesses[ai]),
            None => None,
        };
        let grant = match (requesting_user, access) {
            (Some(u), Some(a)) => match self.grant_pair_index(u, a.id) {
                Some(gi) => Some(&self.grants[gi]),
                None => None,
            },
            _ => None,
        };
        decide_authorization(requesting_user, access, grant)
    }
}

} // verus!
