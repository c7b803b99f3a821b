//! Dispatch of requests on users, capabilities and grants to the store.
use vstd::prelude::*;

use crate::access::user_access_predicates;
use crate::access::Access;
use crate::access::AccessRequest;
use crate::access::AccessResponse;
use crate::access::UserAccess;
use crate::access::UserAccessRequest;
use crate::access::UserAccessResponse;
use crate::errors::Error;
use crate::errors::ErrorKind;
use crate::seqs::find_index;
use crate::store::access_has_id;
use crate::store::access_named;
use crate::store::grant_has_id;
use crate::store::joined_rows;
use crate::store::patched_access;
use crate::store::patched_grant;
use crate::store::patched_user;
use crate::store::user_has_id;
use crate::store::user_kept;
use crate::store::Database;
use crate::users::user_predicates;
use crate::users::User;
use crate::users::UserRequest;
use crate::users::UserResponse;

verus! {

/// Performs a request on users.
pub fn handle_user(request: UserRequest, db: &mut Database) -> (r: Result<UserResponse, Error>)
    requires
        old(db).wf(),
    ensures
        final(db).wf(),
        final(db).accesses == old(db).accesses,
        final(db).grants == old(db).grants,
        match request {
            UserRequest::SearchUsers(c) => *final(db) == *old(db) && (r matches Ok(
                UserResponse::ManyUsers(l),
            ) && l.users@ == old(db).users@.filter(user_kept(user_predicates(c)))),
            UserRequest::GetUser(id) => *final(db) == *old(db) && ({
                let k = find_index(old(db).users@, user_has_id(id));
                &&& k >= 0 ==> r == Ok::<UserResponse, Error>(
                    UserResponse::OneUser(old(db).users@[k]),
                )
                &&& k < 0 ==> r == Err::<UserResponse, Error>(Error { kind: ErrorKind::NotFound })
            }),
            UserRequest::CreateUser(u) => {
                &&& old(db).next_user_id == u64::MAX ==> r == Err::<UserResponse, Error>(
                    Error { kind: ErrorKind::Database },
                ) && *final(db) == *old(db)
                &&& old(db).next_user_id < u64::MAX ==> {
                    let made = User {
                        id: old(db).next_user_id,
                        first_name: u.first_name,
                        last_name: u.last_name,
                        banner_id: u.banner_id,
                        email: u.email,
                    };
                    r == Ok::<UserResponse, Error>(UserResponse::OneUser(made))
                        && final(db).users@ == old(db).users@.push(made)
                }
            },
            UserRequest::UpdateUser(id, p) => r == Ok::<UserResponse, Error>(
                UserResponse::NoResponse,
            ) && final(db).users@.len() == old(db).users@.len() && forall|i: int|
                0 <= i < old(db).users@.len() ==> #[trigger] final(db).users@[i] == if old(
                    db,
                ).users@[i].id == id {
                    patched_user(old(db).users@[i], p)
                } else {
                    old(db).users@[i]
                },
            UserRequest::DeleteUser(id) => r == Ok::<UserResponse, Error>(UserResponse::NoResponse)
                && ({
                let k = find_index(old(db).users@, user_has_id(id));
                &&& k >= 0 ==> final(db).users@ == old(db).users@.remove(k)
                &&& k < 0 ==> *final(db) == *old(db)
            }),
        },
{
    match request {
        UserRequest::SearchUsers(c) => Ok(UserResponse::ManyUsers(db.search_users(&c))),
        UserRequest::GetUser(id) => match db.get_user(id) {
            Ok(u) => Ok(UserResponse::OneUser(u)),
            Err(e) => Err(e),
        },
        UserRequest::CreateUser(u) => match db.create_user(u) {
            Ok(u) => Ok(UserResponse::OneUser(u)),
            Err(e) => Err(e),
        },
        UserRequest::UpdateUser(id, p) => match db.update_user(id, p) {
            Ok(()) => Ok(UserResponse::NoResponse),
            Err(e) => Err(e),
        },
        UserRequest::DeleteUser(id) => match db.delete_user(id) {
            Ok(()) => Ok(UserResponse::NoResponse),
            Err(e) => Err(e),
        },
    }
}

/// Performs a request on capabilities.
pub fn handle_access(request: AccessRequest, db: &mut Database) -> (r: Result<AccessResponse, Error>)
    requires
        old(db).wf(),
    ensures
        final(db).wf(),
        final(db).users == old(db).users,
        final(db).grants == old(db).grants,
        match request {
            AccessRequest::GetAccess(id) => *final(db) == *old(db) && ({
                let k = find_index(old(db).accesses@, access_has_id(id));
                &&& k >= 0 ==> r == Ok::<AccessResponse, Error>(
                    AccessResponse::OneAccess(old(db).accesses@[k]),
                )
                &&& k < 0 ==> r == Err::<AccessResponse, Error>(
                    Error { kind: ErrorKind::NotFound },
                )
            }),
            AccessRequest::CreateAccess(a) => {
                let refused = find_index(old(db).accesses@, access_named(a.name@)) >= 0
                    || old(db).next_access_id == u64::MAX;
                &&& refused ==> r == Err::<AccessResponse, Error>(
                    Error { kind: ErrorKind::Database },
                ) && *final(db) == *old(db)
                &&& !refused ==> {
                    let made = Access {
                        id: old(db).next_access_id,
                        name: a.name,
                        permission_level: a.permission_level,
                    };
                    r == Ok::<AccessResponse, Error>(AccessResponse::OneAccess(made))
                        && final(db).accesses@ == old(db).accesses@.push(made)
                }
            },
            AccessRequest::UpdateAccess(id, p) => {
                let clash = match p.name {
                    Some(n) => {
                        let k = find_index(old(db).accesses@, access_named(n@));
                        k >= 0 && old(db).accesses@[k].id != id
                    },
                    None => false,
                };
                &&& clash ==> r == Err::<AccessResponse, Error>(
                    Error { kind: ErrorKind::Database },
                ) && *final(db) == *old(db)
                &&& !clash ==> r == Ok::<AccessResponse, Error>(AccessResponse::NoResponse)
                    && final(db).accesses@.len() == old(db).accesses@.len() && forall|i: int|
                    0 <= i < old(db).accesses@.len() ==> #[trigger] final(db).accesses@[i]
                        == if old(db).accesses@[i].id == id {
                        patched_access(old(db).accesses@[i], p)
                    } else {
                        old(db).accesses@[i]
                    }
            },
            AccessRequest::DeleteAccess(id) => r == Ok::<AccessResponse, Error>(
                AccessResponse::NoResponse,
            ) && ({
                let k = find_index(old(db).accesses@, access_has_id(id));
                &&& k >= 0 ==> final(db).accesses@ == old(db).accesses@.remove(k)
                &&& k < 0 ==> *final(db) == *old(db)
            }),
        },
{
    match request {
        AccessRequest::GetAccess(id) => match db.get_access(id) {
            Ok(a) => Ok(AccessResponse::OneAccess(a)),
            Err(e) => Err(e),
        },
        AccessRequest::CreateAccess(a) => match db.create_access(a) {
            Ok(a) => Ok(AccessResponse::OneAccess(a)),
            Err(e) => Err(e),
        },
        AccessRequest::UpdateAccess(id, p) => match db.update_access(id, p) {
            Ok(()) => Ok(AccessResponse::NoResponse),
            Err(e) => Err(e),
        },
        AccessRequest::DeleteAccess(id) => match db.delete_access(id) {
            Ok(()) => Ok(AccessResponse::NoResponse),
            Err(e) => Err(e),
        },
    }
}

/// Performs a request on grants.
pub fn handle_user_access(request: UserAccessRequest, db: &mut Database) -> (r: Result<
    UserAccessResponse,
    Error,
>)
    requires
        old(db).wf(),
    ensures
        final(db).wf(),
        final(db).users == old(db).users,
        final(db).accesses == old(db).accesses,
        match request {
            UserAccessRequest::SearchAccess(c) => *final(db) == *old(db) && (r matches Ok(
                UserAccessResponse::ManyUserAccess(l),
            ) && l.entries@ == joined_rows(*old(db), old(db).grants@, user_access_predicates(c))),
            UserAccessRequest::GetAccess(id) => *final(db) == *old(db) && ({
                let k = find_index(old(db).grants@, grant_has_id(id));
                &&& k >= 0 ==> r == Ok::<UserAccessResponse, Error>(
                    UserAccessResponse::OneUserAccess(old(db).grants@[k]),
                )
                &&& k < 0 ==> r == Err::<UserAccessResponse, Error>(
                    Error { kind: ErrorKind::NotFound },
                )
            }),
            UserAccessRequest::CheckAccess(user_id, access_id) => *final(db) == *old(db) && r
                == Ok::<UserAccessResponse, Error>(
                UserAccessResponse::AccessState(
                    exists|i: int|
                        0 <= i < old(db).grants@.len() && #[trigger] old(db).grants@[i].user_id
                            == user_id && old(db).grants@[i].access_id == access_id,
                ),
            ),
            UserAccessRequest::CreateAccess(g) => {
                let refused = (exists|i: int|
                    0 <= i < old(db).grants@.len() && #[trigger] old(db).grants@[i].user_id
                        == g.user_id && old(db).grants@[i].access_id == g.access_id)
                    || old(db).next_permission_id == u64::MAX;
                &&& refused ==> r == Err::<UserAccessResponse, Error>(
                    Error { kind: ErrorKind::Database },
                ) && *final(db) == *old(db)
                &&& !refused ==> {
                    let made = UserAccess {
                        permission_id: old(db).next_permission_id,
                        user_id: g.user_id,
                        access_id: g.access_id,
                        permission_level: g.permission_level,
                    };
                    r == Ok::<UserAccessResponse, Error>(UserAccessResponse::OneUserAccess(made))
                        && final(db).grants@ == old(db).grants@.push(made)
                }
            },
            UserAccessRequest::UpdateAccess(id, p) => r == Ok::<UserAccessResponse, Error>(
                UserAccessResponse::NoResponse,
            ) && final(db).grants@.len() == old(db).grants@.len() && forall|i: int|
                0 <= i < old(db).grants@.len() ==> #[trigger] final(db).grants@[i] == if old(
                    db,
                ).grants@[i].permission_id == id {
                    patched_grant(old(db).grants@[i], p)
                } else {
                    old(db).grants@[i]
                },
            UserAccessRequest::DeleteAccess(id) => r == Ok::<UserAccessResponse, Error>(
                UserAccessResponse::NoResponse,
            ) && ({
                let k = find_index(old(db).grants@, grant_has_id(id));
                &&& k >= 0 ==> final(db).grants@ == old(db).grants@.remove(k)
                &&& k < 0 ==> *final(db) == *old(db)
            }),
        },
{
    match request {
        UserAccessRequest::SearchAccess(c) => {
            Ok(UserAccessResponse::ManyUserAccess(db.search_user_access(&c)))
        },
        UserAccessRequest::GetAccess(id) => match db.get_user_access(id) {
            Ok(g) => Ok(UserAccessResponse::OneUserAccess(g)),
            Err(e) => Err(e),
        },
        UserAccessRequest::CheckAccess(user_id, access_id) => match db.check_user_access(
            user_id,
            access_id,
        ) {
            Ok(s) => Ok(UserAccessResponse::AccessState(s)),
            Err(e) => Err(e),
        },
        UserAccessRequest::CreateAccess(g) => match db.create_user_access(g) {
            Ok(g) => Ok(UserAccessResponse::OneUserAccess(g)),
            Err(e) => Err(e),
        },
        UserAccessRequest::UpdateAccess(id, p) => match db.update_user_access(id, p) {
            Ok(()) => Ok(UserAccessResponse::NoResponse),
            Err(e) => Err(e),
        },
        UserAccessRequest::DeleteAccess(id) => match db.delete_user_access(id) {
            Ok(()) => Ok(UserAccessResponse::NoResponse),
            Err(e) => Err(e),
        },
    }
}

} // verus!
