use accounts::service::{details_list, validate_found};
use accounts::{
    AccountDao, AccountDetails, AccountModel, AccountService, CredentialsModel, DaprAccountService,
    MemoryAccountDao,
};

fn service() -> DaprAccountService<MemoryAccountDao> {
    DaprAccountService::new(MemoryAccountDao::new())
}

fn model(id: &str, name: &str, email: &str, password: &str) -> AccountModel {
    AccountModel {
        id: id.to_string(),
        name: name.to_string(),
        email: email.to_string(),
        password: password.to_string(),
    }
}

fn test_account() -> AccountModel {
    model("test_1", "Test 1", "test1@gmail.com", "password")
}

fn credentials(email: &str, password: &str) -> CredentialsModel {
    CredentialsModel { email: email.to_string(), password: password.to_string() }
}

fn same(d: &AccountDetails, id: &str, name: &str, email: &str) -> bool {
    d.id == id && d.name == name && d.email == email
}

#[test]
fn test_get_all() {
    let service = service();
    let all = service.get_accounts();
    assert!(all.is_empty());
}

#[test]
fn test_create_and_delete() {
    let mut service = service();
    let before_size = service.get_accounts().len();
    assert!(service.create_account(test_account()));
    let after_size = service.get_accounts().len();
    assert_eq!(after_size, before_size + 1);
    assert!(service.delete_account("test_1".to_string()));
    let after_size = service.get_accounts().len();
    assert_eq!(after_size, before_size);
}

#[test]
fn test_get_by_id() {
    let mut service = service();
    assert!(service.create_account(test_account()));
    let found = service.get_account_by_id("test_1".to_string()).unwrap();
    assert!(same(&found, "test_1", "Test 1", "test1@gmail.com"));
    assert!(service.delete_account("test_1".to_string()));
}

#[test]
fn test_get_by_email() {
    let mut service = service();
    assert!(service.create_account(test_account()));
    let found = service.get_account_by_email("test1@gmail.com".to_string()).unwrap();
    assert!(same(&found, "test_1", "Test 1", "test1@gmail.com"));
    assert!(service.delete_account("test_1".to_string()));
}

#[test]
fn test_update() {
    let mut service = service();
    let mut account = test_account();
    assert!(service.create_account(account.clone()));
    account.email = "updated@gmail.com".to_string();
    assert!(service.update_account(account));
    let account_details = service.get_account_by_id("test_1".to_string()).unwrap();
    assert_eq!(account_details.email, "updated@gmail.com".to_string());
    assert!(service.delete_account("test_1".to_string()));
}

#[test]
fn test_validate_account() {
    let mut service = service();
    assert!(service.create_account(test_account()));
    let found = service.validate_account(credentials("test1@gmail.com", "password")).unwrap();
    assert!(same(&found, "test_1", "Test 1", "test1@gmail.com"));
    assert!(service.delete_account("test_1".to_string()));
}

#[test]
fn read_twice_gives_same_details() {
    let mut service = service();
    assert!(service.create_account(model("a", "Ann", "a@x.com", "p")));
    let first = service.get_account_by_id("a".to_string()).unwrap();
    let second = service.get_account_by_id("a".to_string()).unwrap();
    assert!(same(&first, "a", "Ann", "a@x.com"));
    assert!(same(&second, "a", "Ann", "a@x.com"));
    assert!(service.get_account_by_id("b".to_string()).is_none());
    assert!(service.get_account_by_id("b".to_string()).is_none());
}

#[test]
fn created_account_reads_back_without_password() {
    let mut service = service();
    assert!(service.create_account(model("t1", "Test", "t1@x.com", "pw")));
    let found = service.get_account_by_id("t1".to_string()).unwrap();
    assert!(same(&found, "t1", "Test", "t1@x.com"));
}

#[test]
fn create_with_taken_email_is_refused() {
    let mut service = service();
    assert!(service.create_account(model("a", "Ann", "e@x.com", "p")));
    assert!(!service.create_account(model("b", "Bob", "e@x.com", "q")));
    assert_eq!(service.get_accounts().len(), 1);
    assert!(service.get_account_by_id("b".to_string()).is_none());
    let kept = service.get_account_by_id("a".to_string()).unwrap();
    assert!(same(&kept, "a", "Ann", "e@x.com"));
    assert!(service.validate_account(credentials("e@x.com", "p")).is_some());
    assert!(service.validate_account(credentials("e@x.com", "q")).is_none());
}

#[test]
fn create_over_existing_id_replaces_record() {
    let mut service = service();
    assert!(service.create_account(model("a", "Ann", "a@x.com", "p")));
    assert!(service.create_account(model("a", "Anne", "anne@x.com", "p")));
    assert_eq!(service.get_accounts().len(), 1);
    let found = service.get_account_by_id("a".to_string()).unwrap();
    assert!(same(&found, "a", "Anne", "anne@x.com"));
}

#[test]
fn update_of_missing_account_is_refused() {
    let mut service = service();
    assert!(service.create_account(model("a", "Ann", "a@x.com", "p")));
    assert!(!service.update_account(model("zz", "Zed", "z@x.com", "p")));
    assert_eq!(service.get_accounts().len(), 1);
    assert!(service.get_account_by_id("zz".to_string()).is_none());
}

#[test]
fn update_rehashes_new_password() {
    let mut service = service();
    assert!(service.create_account(model("a", "Ann", "a@x.com", "old")));
    assert!(service.update_account(model("a", "Ann", "a@x.com", "new")));
    assert!(service.validate_account(credentials("a@x.com", "new")).is_some());
    assert!(service.validate_account(credentials("a@x.com", "old")).is_none());
}

#[test]
fn delete_requires_existing_account() {
    let mut service = service();
    assert!(!service.delete_account("nobody".to_string()));
    assert!(service.create_account(model("a", "Ann", "a@x.com", "p")));
    assert!(service.delete_account("a".to_string()));
    assert!(service.get_account_by_id("a".to_string()).is_none());
    assert!(!service.delete_account("a".to_string()));
}

#[test]
fn credentials_round_trip() {
    let mut service = service();
    assert!(service.create_account(model("a", "Ann", "a@x.com", "p")));
    let found = service.validate_account(credentials("a@x.com", "p")).unwrap();
    assert!(same(&found, "a", "Ann", "a@x.com"));
    assert!(service.validate_account(credentials("a@x.com", "wrong")).is_none());
    assert!(service.validate_account(credentials("missing@x.com", "p")).is_none());
}

#[test]
fn stored_password_is_a_hash_and_never_shown() {
    let mut service = service();
    assert!(service.create_account(model("a", "Ann", "a@x.com", "secret")));
    let shown = service.get_accounts();
    assert_eq!(shown.len(), 1);
    assert!(same(&shown[0], "a", "Ann", "a@x.com"));
    for d in shown.iter() {
        assert!(!d.id.contains("secret") && !d.name.contains("secret") && !d.email.contains("secret"));
        assert!(!d.id.contains("$2b$") && !d.name.contains("$2b$") && !d.email.contains("$2b$"));
    }

    let hash = accounts::password::hash_password(&"secret".to_string());
    assert!(hash.starts_with("$2b$"));
    let mut dao = MemoryAccountDao::new();
    let mut entity = accounts::AccountEntity::from_model(&model("a", "Ann", "a@x.com", "x"));
    entity.password = hash.clone();
    assert!(dao.create_account(entity));
    let stored = dao.get_account_by_id("a".to_string()).unwrap();
    assert_eq!(stored.password, hash);
    let over_stored = DaprAccountService::new(dao);
    let d = over_stored.validate_account(credentials("a@x.com", "secret")).unwrap();
    assert!(same(&d, "a", "Ann", "a@x.com"));
    assert!(!d.name.contains("$2b$") && !d.email.contains("$2b$"));
}

#[test]
fn end_to_end_scenario() {
    let mut service = service();
    assert!(service.create_account(model("t1", "Test", "t1@x.com", "pw")));
    let listed = service.get_accounts();
    assert!(listed.iter().any(|d| same(d, "t1", "Test", "t1@x.com")));
    let valid = service.validate_account(credentials("t1@x.com", "pw")).unwrap();
    assert_eq!(valid.id, "t1");
    assert!(service.delete_account("t1".to_string()));
    let listed = service.get_accounts();
    assert!(!listed.iter().any(|d| d.id == "t1"));
}

#[test]
fn accounts_are_listed_in_insertion_order() {
    let mut service = service();
    assert!(service.create_account(model("b", "Bob", "b@x.com", "p")));
    assert!(service.create_account(model("a", "Ann", "a@x.com", "p")));
    assert!(service.create_account(model("c", "Cy", "c@x.com", "p")));
    let ids: Vec<String> = service.get_accounts().into_iter().map(|d| d.id).collect();
    assert_eq!(ids, vec!["b".to_string(), "a".to_string(), "c".to_string()]);
}

#[test]
fn hashed_variants_store_given_hash() {
    let mut service = service();
    assert!(service.create_account_hashed(model("a", "Ann", "a@x.com", "ignored"), "H1".to_string()));
    assert!(!service.create_account_hashed(model("b", "Bob", "a@x.com", "ignored"), "H2".to_string()));
    assert!(service.update_account_hashed(model("a", "Ann", "new@x.com", "ignored"), "H3".to_string()));
    assert!(!service.update_account_hashed(model("q", "Q", "q@x.com", "ignored"), "H4".to_string()));
    let found = service.get_account_by_email("new@x.com".to_string()).unwrap();
    assert!(same(&found, "a", "Ann", "new@x.com"));
    assert!(service.get_account_by_email("a@x.com".to_string()).is_none());
}

#[test]
fn validate_found_checks_the_given_record() {
    let hash = accounts::password::hash_password(&"p".to_string());
    let mut e = accounts::AccountEntity::from_model(&model("a", "Ann", "a@x.com", "x"));
    e.password = hash;
    let ok = validate_found(Some(e.clone()), &"p".to_string()).unwrap();
    assert!(same(&ok, "a", "Ann", "a@x.com"));
    assert!(validate_found(Some(e), &"q".to_string()).is_none());
    assert!(validate_found(None, &"p".to_string()).is_none());
    let plain = accounts::AccountEntity::from_model(&model("b", "Bob", "b@x.com", "p"));
    assert!(validate_found(Some(plain), &"p".to_string()).is_none());
}

#[test]
fn details_list_keeps_order_and_drops_passwords() {
    let entities = vec![
        accounts::AccountEntity::from_model(&model("b", "Bob", "b@x.com", "p")),
        accounts::AccountEntity::from_model(&model("a", "Ann", "a@x.com", "q")),
    ];
    let shown = details_list(&entities);
    assert_eq!(shown.len(), 2);
    assert!(same(&shown[0], "b", "Bob", "b@x.com"));
    assert!(same(&shown[1], "a", "Ann", "a@x.com"));
    assert!(details_list(&vec![]).is_empty());
}

#[test]
fn validation_uses_the_first_record_with_the_email() {
    let mut service = service();
    assert!(service.create_account(model("a", "Ann", "a@x.com", "p")));
    assert!(service.create_account(model("b", "Bob", "b@x.com", "q")));
    assert!(service.update_account(model("b", "Bob", "a@x.com", "q")));
    let found = service.validate_account(credentials("a@x.com", "p")).unwrap();
    assert_eq!(found.id, "a");
    assert!(service.validate_account(credentials("a@x.com", "q")).is_none());
}
