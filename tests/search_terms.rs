use quizdb::errors::{Error, ErrorKind};
use quizdb::filter::{contains_ignoring_case, Column, Predicate, Value};
use quizdb::search::{NullableSearch, Search};
use quizdb::users::{SearchUser, User};

fn url_error() -> Error {
    Error::new(ErrorKind::Url)
}

fn pairs(items: &[(&str, &str)]) -> Vec<(String, String)> {
    items.iter().map(|(f, v)| (f.to_string(), v.to_string())).collect()
}

fn user(first: &str, banner: u32) -> User {
    User {
        id: 1,
        first_name: first.to_string(),
        last_name: "Smith".to_string(),
        banner_id: banner,
        email: None,
    }
}

#[test]
fn text_terms_parse() {
    assert_eq!(Search::<String>::from_query("exact:Anna"), Ok(Search::Exact("Anna".to_string())));
    assert_eq!(Search::<String>::from_query("partial:an"), Ok(Search::Partial("an".to_string())));
    assert_eq!(Search::<String>::from_query("exact:a:b"), Ok(Search::Exact("a:b".to_string())));
}

#[test]
fn malformed_text_terms_are_url_errors() {
    assert_eq!(Search::<String>::from_query("like:an"), Err(url_error()));
    assert_eq!(Search::<String>::from_query("exact:"), Err(url_error()));
    assert_eq!(Search::<String>::from_query("partial:"), Err(url_error()));
    assert_eq!(Search::<String>::from_query(""), Err(url_error()));
    assert_eq!(Search::<String>::from_query("null"), Err(url_error()));
    assert_eq!(Search::<String>::from_query("Exact:x"), Err(url_error()));
}

#[test]
fn numeric_terms_parse() {
    assert_eq!(Search::<u32>::from_query("exact:1001"), Ok(Search::Exact(1001)));
    assert_eq!(Search::<u32>::from_query("partial:7"), Ok(Search::Partial(7)));
    assert_eq!(Search::<u32>::from_query("exact:4294967295"), Ok(Search::Exact(u32::MAX)));
    assert_eq!(Search::<u64>::from_query("exact:18446744073709551615"), Ok(Search::Exact(u64::MAX)));
    assert_eq!(Search::<u64>::from_query("exact:0"), Ok(Search::Exact(0)));
}

#[test]
fn malformed_numeric_terms_are_url_errors() {
    assert_eq!(Search::<u32>::from_query("exact:4294967296"), Err(url_error()));
    assert_eq!(Search::<u64>::from_query("exact:18446744073709551616"), Err(url_error()));
    assert_eq!(Search::<u32>::from_query("exact:12a"), Err(url_error()));
    assert_eq!(Search::<u32>::from_query("exact:-1"), Err(url_error()));
    assert_eq!(Search::<u32>::from_query("exact:"), Err(url_error()));
    assert_eq!(Search::<u32>::from_query("1001"), Err(url_error()));
}

#[test]
fn nullable_terms_parse() {
    assert_eq!(NullableSearch::<String>::from_query("null"), Ok(NullableSearch::IsNull));
    assert_eq!(NullableSearch::<String>::from_query("notnull"), Ok(NullableSearch::IsNotNull));
    assert_eq!(
        NullableSearch::<String>::from_query("exact:a@b.c"),
        Ok(NullableSearch::Exact("a@b.c".to_string()))
    );
    assert_eq!(
        NullableSearch::<String>::from_query("partial:null"),
        Ok(NullableSearch::Partial("null".to_string()))
    );
    assert_eq!(NullableSearch::<String>::from_query("nul"), Err(url_error()));
    assert_eq!(NullableSearch::<String>::from_query("nulls"), Err(url_error()));
    assert_eq!(NullableSearch::<String>::from_query("exact:"), Err(url_error()));
}

#[test]
fn exact_compiles_to_equality_and_partial_to_contains() {
    let c = SearchUser::from_query(&pairs(&[("last_name", "exact:Smith"), ("first_name", "partial:an")]))
        .unwrap();
    assert_eq!(
        c.predicates(),
        vec![
            Predicate::Contains(Column::FirstName, "an".to_string()),
            Predicate::Equals(Column::LastName, Value::Text("Smith".to_string())),
        ]
    );
}

#[test]
fn partial_on_number_compiles_to_equality() {
    let c = SearchUser::from_query(&pairs(&[("banner_id", "partial:42")])).unwrap();
    assert_eq!(c.predicates(), vec![Predicate::Equals(Column::BannerId, Value::Number(42))]);
}

#[test]
fn absent_fields_are_not_searched() {
    let c = SearchUser::from_query(&pairs(&[("email", "null")])).unwrap();
    assert_eq!(c.first_name, Search::NoSearch);
    assert_eq!(c.last_name, Search::NoSearch);
    assert_eq!(c.banner_id, Search::NoSearch);
    assert_eq!(c.email, NullableSearch::IsNull);
    assert_eq!(c.predicates(), vec![Predicate::IsNull(Column::Email)]);
    let none = SearchUser::from_query(&Vec::new()).unwrap();
    assert_eq!(none.first_name, Search::NoSearch);
    assert_eq!(none.email, NullableSearch::NoSearch);
}

#[test]
fn empty_criteria_compile_to_nothing() {
    let none = SearchUser::new();
    assert!(none.predicates().is_empty());
    assert!(user("Bob", 5).matches(&none.predicates()));
}

#[test]
fn later_pair_replaces_earlier() {
    let c = SearchUser::from_query(&pairs(&[("first_name", "exact:A"), ("first_name", "exact:B")]))
        .unwrap();
    assert_eq!(c.first_name, Search::Exact("B".to_string()));
}

#[test]
fn unknown_field_or_bad_value_is_url_error() {
    assert_eq!(SearchUser::from_query(&pairs(&[("nickname", "exact:x")])).err(), Some(url_error()));
    assert_eq!(SearchUser::from_query(&pairs(&[("banner_id", "exact:x")])).err(), Some(url_error()));
    assert_eq!(SearchUser::from_query(&pairs(&[("email", "maybe")])).err(), Some(url_error()));
}

#[test]
fn query_set_scenario_filters_records() {
    let c = SearchUser::from_query(&pairs(&[("first_name", "partial:an"), ("banner_id", "exact:1001")]))
        .unwrap();
    let preds = c.predicates();
    assert_eq!(
        preds,
        vec![
            Predicate::Contains(Column::FirstName, "an".to_string()),
            Predicate::Equals(Column::BannerId, Value::Number(1001)),
        ]
    );
    assert!(user("Anna", 1001).matches(&preds));
    assert!(!user("Anna", 1002).matches(&preds));
    assert!(!user("Bob", 1001).matches(&preds));
}

#[test]
fn query_string_is_decoded_before_reading() {
    let c = SearchUser::from_query_string("first_name=partial%3Aan&banner_id=exact:1001").unwrap();
    assert_eq!(c.first_name, Search::Partial("an".to_string()));
    assert_eq!(c.banner_id, Search::Exact(1001));
    let d = SearchUser::from_query_string("last_name=exact:van+Dijk").unwrap();
    assert_eq!(d.last_name, Search::Exact("van Dijk".to_string()));
    let none = SearchUser::from_query_string("").unwrap();
    assert_eq!(none.first_name, Search::NoSearch);
    assert_eq!(SearchUser::from_query_string("age=exact:3").err(), Some(url_error()));
}

#[test]
fn contains_ignores_ascii_case() {
    assert!(contains_ignoring_case("Anna", "an"));
    assert!(contains_ignoring_case("Anna", "NNA"));
    assert!(contains_ignoring_case("Anna", ""));
    assert!(!contains_ignoring_case("Anna", "ab"));
    assert!(!contains_ignoring_case("An", "Anna"));
    assert!(!contains_ignoring_case("", "a"));
}

#[test]
fn nullable_predicates_on_email() {
    let mut u = user("Anna", 1);
    assert!(u.satisfies(&Predicate::IsNull(Column::Email)));
    assert!(!u.satisfies(&Predicate::IsNotNull(Column::Email)));
    u.email = Some("anna@example.org".to_string());
    assert!(u.satisfies(&Predicate::IsNotNull(Column::Email)));
    assert!(u.satisfies(&Predicate::Contains(Column::Email, "EXAMPLE".to_string())));
    assert!(u.satisfies(&Predicate::Equals(Column::Email, Value::Text("anna@example.org".to_string()))));
    assert!(!u.satisfies(&Predicate::Equals(Column::UserId, Value::Number(1))));
}
