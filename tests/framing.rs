use accounts::dapr::{get_sidecar_port, get_state_store_name};
use accounts::json::append_quoted;
use accounts::{AccountEntity, DaprAccountDao, Filter};

fn entity(id: &str, name: &str, email: &str, password: &str) -> AccountEntity {
    AccountEntity {
        id: id.to_string(),
        name: name.to_string(),
        email: email.to_string(),
        password: password.to_string(),
    }
}

fn quoted(s: &str) -> String {
    let mut out = String::new();
    append_quoted(&mut out, s);
    out
}

#[test]
fn default_endpoints() {
    let dao = DaprAccountDao::new();
    assert_eq!(dao.get_sidecar_url(), "http://localhost:3500/v1.0/state/account-db");
    assert_eq!(dao.get_sidecar_query_url(), "http://localhost:3500/v1.0-alpha1/state/account-db/query");
    assert_eq!(dao.record_url(&"test_1".to_string()), "http://localhost:3500/v1.0/state/account-db/test_1");
}

#[test]
fn configured_endpoints() {
    let dao = DaprAccountDao::from_config(Some("4000".to_string()), Some("postgres".to_string()));
    assert_eq!(dao.get_sidecar_url(), "http://localhost:4000/v1.0/state/postgres");
    assert_eq!(dao.get_sidecar_query_url(), "http://localhost:4000/v1.0-alpha1/state/postgres/query");
    let partly = DaprAccountDao::from_config(None, Some("s".to_string()));
    assert_eq!(partly.get_sidecar_url(), "http://localhost:3500/v1.0/state/s");
}

#[test]
fn configuration_defaults() {
    assert_eq!(get_sidecar_port(None), "3500");
    assert_eq!(get_sidecar_port(Some("1".to_string())), "1");
    assert_eq!(get_state_store_name(None), "account-db");
    assert_eq!(get_state_store_name(Some("db".to_string())), "db");
}

#[test]
fn filter_all_body() {
    assert_eq!(Filter::All.to_json(), "{}");
    assert_eq!(DaprAccountDao::query_body(&Filter::All), "{\"filter\":{}}");
}

#[test]
fn filter_email_body() {
    let f = DaprAccountDao::email_filter("t1@x.com".to_string());
    assert_eq!(f.to_json(), "{\"EQ\":{\"email\":\"t1@x.com\"}}");
    assert_eq!(DaprAccountDao::query_body(&f), "{\"filter\":{\"EQ\":{\"email\":\"t1@x.com\"}}}");
}

#[test]
fn filter_and_body() {
    let f = Filter::And(vec![
        Filter::Equals("email".to_string(), "a@x.com".to_string()),
        Filter::Equals("password".to_string(), "p".to_string()),
    ]);
    assert_eq!(
        f.to_json(),
        "{\"AND\":[{\"EQ\":{\"email\":\"a@x.com\"}},{\"EQ\":{\"password\":\"p\"}}]}"
    );
    assert_eq!(Filter::And(vec![]).to_json(), "{\"AND\":[]}");
    let nested = Filter::And(vec![Filter::And(vec![Filter::All]), Filter::All]);
    assert_eq!(nested.to_json(), "{\"AND\":[{\"AND\":[{}]},{}]}");
}

#[test]
fn strings_are_escaped() {
    assert_eq!(quoted(""), "\"\"");
    assert_eq!(quoted("plain"), "\"plain\"");
    assert_eq!(quoted("a\"b\\c"), "\"a\\\"b\\\\c\"");
    assert_eq!(quoted("\n\r\t\u{8}\u{c}"), "\"\\n\\r\\t\\b\\f\"");
    assert_eq!(quoted("\u{1}\u{1f}"), "\"\\u0001\\u001f\"");
    assert_eq!(quoted("é/\u{7f}"), "\"é/\u{7f}\"");
}

#[test]
fn save_body_frames_one_record() {
    let e = entity("t1", "Test", "t1@x.com", "$2b$08$abc");
    assert_eq!(
        DaprAccountDao::save_body(&e),
        "[{\"key\":\"t1\",\"value\":{\"email\":\"t1@x.com\",\"id\":\"t1\",\"name\":\"Test\",\"password\":\"$2b$08$abc\"}}]"
    );
    let odd = entity("a\"b", "N", "e", "p");
    assert_eq!(
        DaprAccountDao::save_body(&odd),
        "[{\"key\":\"a\\\"b\",\"value\":{\"email\":\"e\",\"id\":\"a\\\"b\",\"name\":\"N\",\"password\":\"p\"}}]"
    );
}

#[test]
fn unreadable_answers_give_nothing() {
    assert!(DaprAccountDao::results_or_empty(None).is_empty());
    assert!(DaprAccountDao::first_match(None, &"e".to_string()).is_none());
    assert!(DaprAccountDao::first_match(Some(vec![]), &"e".to_string()).is_none());
    assert!(DaprAccountDao::record_for_id(None, &"a".to_string()).is_none());
}

#[test]
fn first_match_takes_the_first_record_with_the_email() {
    let listed = DaprAccountDao::results_or_empty(Some(vec![entity("a", "A", "e", "p"), entity("b", "B", "e", "q")]));
    assert_eq!(listed.len(), 2);
    let answer = vec![entity("x", "X", "other", "p"), entity("a", "A", "e", "p"), entity("b", "B", "e", "q")];
    let first = DaprAccountDao::first_match(Some(answer), &"e".to_string()).unwrap();
    assert_eq!(first.id, "a");
    let none = DaprAccountDao::first_match(Some(vec![entity("x", "X", "other", "p")]), &"e".to_string());
    assert!(none.is_none());
}

#[test]
fn fetched_record_must_carry_the_id() {
    let kept = DaprAccountDao::record_for_id(Some(entity("a", "A", "e", "p")), &"a".to_string()).unwrap();
    assert_eq!(kept.name, "A");
    assert!(DaprAccountDao::record_for_id(Some(entity("b", "B", "e", "p")), &"a".to_string()).is_none());
}
