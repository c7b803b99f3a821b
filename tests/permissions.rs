use quizdb::access::{
    Access, UserAccess, AccessRequest, AccessResponse, NewAccess, NewUserAccess, PartialAccess, PartialUserAccess,
    SearchUserAccess, UserAccessRequest, UserAccessResponse,
};
use quizdb::errors::{Error, ErrorKind};
use quizdb::search::{NullableSearch, Search};
use quizdb::store::{decide_authorization, Database};
use quizdb::users::{NewUser, PartialUser, SearchUser, UserRequest, UserResponse};

fn err(kind: ErrorKind) -> Error {
    Error::new(kind)
}

fn access(db: &mut Database, name: &str, level: Option<&str>) -> u64 {
    db.create_access(NewAccess {
        name: name.to_string(),
        permission_level: level.map(|l| l.to_string()),
    })
    .unwrap()
    .id
}

fn grant(db: &mut Database, user_id: u64, access_id: u64, level: Option<&str>) -> u64 {
    db.create_user_access(NewUserAccess {
        user_id,
        access_id,
        permission_level: level.map(|l| l.to_string()),
    })
    .unwrap()
    .permission_id
}

fn new_user(first: &str, last: &str, banner_id: u32) -> NewUser {
    NewUser {
        first_name: first.to_string(),
        last_name: last.to_string(),
        banner_id,
        email: None,
    }
}

#[test]
fn grant_revoke_scenario() {
    let mut db = Database::new();
    let delete_questions = access(&mut db, "DeleteQuestions", None);
    assert_eq!(db.authorize(Some(7), "DeleteQuestions"), Err(err(ErrorKind::Forbidden)));
    let pid = grant(&mut db, 7, delete_questions, None);
    assert_eq!(db.authorize(Some(7), "DeleteQuestions"), Ok(()));
    db.delete_user_access(pid).unwrap();
    assert_eq!(db.authorize(Some(7), "DeleteQuestions"), Err(err(ErrorKind::Forbidden)));
}

#[test]
fn no_user_is_unauthenticated() {
    let mut db = Database::new();
    let a = access(&mut db, "CreateQuestions", None);
    grant(&mut db, 1, a, None);
    assert_eq!(db.authorize(None, "CreateQuestions"), Err(err(ErrorKind::Unauthenticated)));
    assert_eq!(db.authorize(None, "Nothing"), Err(err(ErrorKind::Unauthenticated)));
}

#[test]
fn unknown_capability_is_reported() {
    let mut db = Database::new();
    let a = access(&mut db, "CreateQuestions", None);
    grant(&mut db, 1, a, None);
    assert_eq!(db.authorize(Some(1), "DeleteQuestions"), Err(err(ErrorKind::UnknownCapability)));
    assert_eq!(db.authorize(Some(1), "createquestions"), Err(err(ErrorKind::UnknownCapability)));
}

#[test]
fn level_must_meet_requirement() {
    let mut db = Database::new();
    let a = access(&mut db, "EditQuestions", Some("2"));
    assert_eq!(db.authorize(Some(3), "EditQuestions"), Err(err(ErrorKind::Forbidden)));
    let low = grant(&mut db, 3, a, Some("1"));
    assert_eq!(db.authorize(Some(3), "EditQuestions"), Err(err(ErrorKind::InsufficientLevel)));
    db.update_user_access(low, PartialUserAccess { permission_level: Some(Some("2".to_string())) })
        .unwrap();
    assert_eq!(db.authorize(Some(3), "EditQuestions"), Ok(()));
    db.update_user_access(low, PartialUserAccess { permission_level: Some(Some("3".to_string())) })
        .unwrap();
    assert_eq!(db.authorize(Some(3), "EditQuestions"), Ok(()));
    db.update_user_access(low, PartialUserAccess { permission_level: Some(None) }).unwrap();
    assert_eq!(db.authorize(Some(3), "EditQuestions"), Err(err(ErrorKind::InsufficientLevel)));
    let b = access(&mut db, "ViewQuestions", None);
    grant(&mut db, 3, b, None);
    assert_eq!(db.authorize(Some(3), "ViewQuestions"), Ok(()));
}

#[test]
fn duplicate_grant_is_refused() {
    let mut db = Database::new();
    let a = access(&mut db, "CreateQuestions", None);
    let first = grant(&mut db, 4, a, Some("1"));
    let again = db.create_user_access(NewUserAccess {
        user_id: 4,
        access_id: a,
        permission_level: Some("9".to_string()),
    });
    assert_eq!(again.err(), Some(err(ErrorKind::Database)));
    assert_eq!(db.grants.len(), 1);
    let kept = db.get_user_access(first).unwrap();
    assert_eq!(kept.user_id, 4);
    assert_eq!(kept.permission_level, Some("1".to_string()));
    assert_eq!(db.check_user_access(4, a), Ok(true));
    assert_eq!(db.check_user_access(5, a), Ok(false));
}

#[test]
fn deleting_missing_grant_changes_nothing() {
    let mut db = Database::new();
    let a = access(&mut db, "CreateQuestions", None);
    let pid = grant(&mut db, 4, a, None);
    assert_eq!(db.delete_user_access(pid + 100), Ok(()));
    assert_eq!(db.grants.len(), 1);
    assert_eq!(db.grants[0].permission_id, pid);
    assert_eq!(db.delete_user_access(pid), Ok(()));
    assert_eq!(db.delete_user_access(pid), Ok(()));
    assert!(db.grants.is_empty());
    assert_eq!(db.get_user_access(pid).err(), Some(err(ErrorKind::NotFound)));
}

#[test]
fn capability_names_stay_distinct() {
    let mut db = Database::new();
    let a = access(&mut db, "A", None);
    let b = access(&mut db, "B", None);
    assert_eq!(
        db.create_access(NewAccess { name: "A".to_string(), permission_level: None }).err(),
        Some(err(ErrorKind::Database))
    );
    let rename = PartialAccess { name: Some("A".to_string()), permission_level: None };
    assert_eq!(db.update_access(b, rename), Err(err(ErrorKind::Database)));
    let same = PartialAccess { name: Some("A".to_string()), permission_level: Some(Some("1".to_string())) };
    assert_eq!(db.update_access(a, same), Ok(()));
    assert_eq!(db.get_access(a).unwrap().permission_level, Some("1".to_string()));
    db.delete_access(a).unwrap();
    assert_eq!(db.get_access(a).err(), Some(err(ErrorKind::NotFound)));
    assert_eq!(db.authorize(Some(1), "A"), Err(err(ErrorKind::UnknownCapability)));
}

#[test]
fn user_operations() {
    let mut db = Database::new();
    let anna = db.create_user(new_user("Anna", "Berg", 1001)).unwrap();
    let bob = db.create_user(new_user("Bob", "Stone", 1002)).unwrap();
    assert_eq!(anna.id, 1);
    assert_eq!(bob.id, 2);
    assert_eq!(db.get_user(2).unwrap().first_name, "Bob");
    assert_eq!(db.get_user(9).err(), Some(err(ErrorKind::NotFound)));
    let patch = PartialUser {
        first_name: None,
        last_name: Some("Stones".to_string()),
        banner_id: None,
        email: Some(Some("bob@example.org".to_string())),
    };
    db.update_user(2, patch).unwrap();
    let b = db.get_user(2).unwrap();
    assert_eq!(b.first_name, "Bob");
    assert_eq!(b.last_name, "Stones");
    assert_eq!(b.email, Some("bob@example.org".to_string()));
    assert_eq!(db.get_user(1).unwrap().last_name, "Berg");
    db.delete_user(1).unwrap();
    assert_eq!(db.get_user(1).err(), Some(err(ErrorKind::NotFound)));
    assert_eq!(db.users.len(), 1);
}

#[test]
fn search_with_no_criteria_lists_everything() {
    let mut db = Database::new();
    db.create_user(new_user("Anna", "Berg", 1001)).unwrap();
    db.create_user(new_user("Bob", "Stone", 1002)).unwrap();
    let all = db.search_users(&SearchUser::new());
    assert_eq!(all.users.len(), 2);
    assert_eq!(all.users[0].first_name, "Anna");
    assert_eq!(all.users[1].first_name, "Bob");
}

#[test]
fn search_users_scenario() {
    let mut db = Database::new();
    db.create_user(new_user("Anna", "Berg", 1001)).unwrap();
    db.create_user(new_user("Anna", "Berg", 1002)).unwrap();
    db.create_user(new_user("Joan", "Berg", 1001)).unwrap();
    let pairs = vec![
        ("first_name".to_string(), "partial:an".to_string()),
        ("banner_id".to_string(), "exact:1001".to_string()),
    ];
    let found = db.search_users(&SearchUser::from_query(&pairs).unwrap());
    assert_eq!(found.users.len(), 2);
    assert_eq!(found.users[0].id, 1);
    assert_eq!(found.users[1].id, 3);
}

#[test]
fn grant_search_joins_users() {
    let mut db = Database::new();
    let anna = db.create_user(new_user("Anna", "Berg", 1001)).unwrap().id;
    let bob = db.create_user(new_user("Bob", "Stone", 1002)).unwrap().id;
    let a = access(&mut db, "CreateQuestions", None);
    let b = access(&mut db, "DeleteQuestions", None);
    grant(&mut db, anna, a, Some("1"));
    grant(&mut db, bob, a, None);
    grant(&mut db, bob, b, None);
    grant(&mut db, 99, a, None);
    let all = db.search_user_access(&SearchUserAccess {
        access_id: Search::NoSearch,
        user_id: Search::NoSearch,
        permission_level: NullableSearch::NoSearch,
    });
    assert_eq!(all.entries.len(), 3);
    let by_access = db.search_user_access(&SearchUserAccess {
        access_id: Search::Exact(a),
        user_id: Search::NoSearch,
        permission_level: NullableSearch::IsNull,
    });
    assert_eq!(by_access.entries.len(), 1);
    assert_eq!(by_access.entries[0].first_name, "Bob");
    assert_eq!(by_access.entries[0].banner_id, 1002);
    let by_user = db.search_user_access(&SearchUserAccess {
        access_id: Search::NoSearch,
        user_id: Search::Partial(bob),
        permission_level: NullableSearch::NoSearch,
    });
    assert_eq!(by_user.entries.len(), 2);
}

#[test]
fn handlers_dispatch() {
    let mut db = Database::new();
    let made = quizdb::handlers::handle_user(UserRequest::CreateUser(new_user("Anna", "Berg", 1)), &mut db);
    assert!(matches!(made, Ok(UserResponse::OneUser(ref u)) if u.id == 1));
    let listed = quizdb::handlers::handle_user(UserRequest::SearchUsers(SearchUser::new()), &mut db);
    assert!(matches!(listed, Ok(UserResponse::ManyUsers(ref l)) if l.users.len() == 1));
    let missing = quizdb::handlers::handle_user(UserRequest::GetUser(5), &mut db);
    assert_eq!(missing.err(), Some(err(ErrorKind::NotFound)));
    let a = quizdb::handlers::handle_access(
        AccessRequest::CreateAccess(NewAccess { name: "X".to_string(), permission_level: None }),
        &mut db,
    );
    assert!(matches!(a, Ok(AccessResponse::OneAccess(ref x)) if x.id == 1));
    let g = quizdb::handlers::handle_user_access(
        UserAccessRequest::CreateAccess(NewUserAccess { user_id: 1, access_id: 1, permission_level: None }),
        &mut db,
    );
    assert!(matches!(g, Ok(UserAccessResponse::OneUserAccess(ref x)) if x.permission_id == 1));
    let state = quizdb::handlers::handle_user_access(UserAccessRequest::CheckAccess(1, 1), &mut db);
    assert!(matches!(state, Ok(UserAccessResponse::AccessState(true))));
    let gone = quizdb::handlers::handle_user_access(UserAccessRequest::DeleteAccess(1), &mut db);
    assert!(matches!(gone, Ok(UserAccessResponse::NoResponse)));
    let state = quizdb::handlers::handle_user_access(UserAccessRequest::CheckAccess(1, 1), &mut db);
    assert!(matches!(state, Ok(UserAccessResponse::AccessState(false))));
}

#[test]
fn grant_criteria_from_query() {
    let pairs = vec![
        ("user_id".to_string(), "exact:7".to_string()),
        ("permission_level".to_string(), "notnull".to_string()),
    ];
    let c = SearchUserAccess::from_query(&pairs).unwrap();
    assert_eq!(c.user_id, Search::Exact(7));
    assert_eq!(c.access_id, Search::NoSearch);
    assert_eq!(c.permission_level, NullableSearch::IsNotNull);
    let d = SearchUserAccess::from_query_string("access_id=partial%3A3").unwrap();
    assert_eq!(d.access_id, Search::Partial(3));
    assert_eq!(SearchUserAccess::from_query_string("first_name=exact:A").err(), Some(err(ErrorKind::Url)));
}

#[test]
fn verdict_from_lookups() {
    let a = Access { id: 1, name: "X".to_string(), permission_level: Some("b".to_string()) };
    let high = UserAccess { permission_id: 1, user_id: 2, access_id: 1, permission_level: Some("c".to_string()) };
    let low = UserAccess { permission_id: 2, user_id: 2, access_id: 1, permission_level: Some("a".to_string()) };
    assert_eq!(decide_authorization(None, Some(&a), Some(&high)), Err(err(ErrorKind::Unauthenticated)));
    assert_eq!(decide_authorization(Some(2), None, None), Err(err(ErrorKind::UnknownCapability)));
    assert_eq!(decide_authorization(Some(2), Some(&a), None), Err(err(ErrorKind::Forbidden)));
    assert_eq!(decide_authorization(Some(2), Some(&a), Some(&low)), Err(err(ErrorKind::InsufficientLevel)));
    assert_eq!(decide_authorization(Some(2), Some(&a), Some(&high)), Ok(()));
}
