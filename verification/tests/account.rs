use account_service::account::{Account, UpdateAccount};
use account_service::id::AccountId;

fn stored() -> Account {
    Account {
        id: Some(AccountId::from_bytes([7; 12])),
        email: "a@b.com".to_string(),
        first_name: "A".to_string(),
        last_name: "B".to_string(),
    }
}

#[test]
fn without_id_clears_only_the_id() {
    let account = stored().without_id();
    assert_eq!(account.id, None);
    assert_eq!(account.email, "a@b.com");
    assert_eq!(account.first_name, "A");
    assert_eq!(account.last_name, "B");
}

#[test]
fn without_id_of_an_account_without_one() {
    let account = stored().without_id();
    assert_eq!(account.clone().without_id(), account);
}

#[test]
fn with_id_sets_only_the_id() {
    let id = AccountId::from_bytes([9; 12]);
    let account = stored().with_id(id);
    assert_eq!(account, Account { id: Some(id), ..stored() });
    assert_eq!(stored().without_id().with_id(id), account);
}

#[test]
fn empty_update_holds_no_field() {
    let update = UpdateAccount::empty();
    assert_eq!(update, UpdateAccount { id: None, email: None, first_name: None, last_name: None });
}

#[test]
fn merge_of_nothing_keeps_the_account() {
    assert_eq!(UpdateAccount::empty().merge_into(stored()), stored());
}

#[test]
fn merge_writes_one_field() {
    let email = UpdateAccount { email: Some("x".to_string()), ..UpdateAccount::empty() };
    assert_eq!(email.merge_into(stored()), Account { email: "x".to_string(), ..stored() });
    let first = UpdateAccount { first_name: Some("F".to_string()), ..UpdateAccount::empty() };
    assert_eq!(first.merge_into(stored()), Account { first_name: "F".to_string(), ..stored() });
    let last = UpdateAccount { last_name: Some("C".to_string()), ..UpdateAccount::empty() };
    assert_eq!(last.merge_into(stored()), Account { last_name: "C".to_string(), ..stored() });
}

#[test]
fn merge_writes_every_field_sent() {
    let update = UpdateAccount {
        id: None,
        email: Some("x@y.org".to_string()),
        first_name: Some("X".to_string()),
        last_name: Some("Y".to_string()),
    };
    assert_eq!(
        update.merge_into(stored()),
        Account {
            id: stored().id,
            email: "x@y.org".to_string(),
            first_name: "X".to_string(),
            last_name: "Y".to_string(),
        }
    );
}

#[test]
fn merge_writes_an_empty_text_as_a_value() {
    let update = UpdateAccount { email: Some(String::new()), ..UpdateAccount::empty() };
    assert_eq!(update.merge_into(stored()).email, "");
}

#[test]
fn merge_never_writes_the_id() {
    let update = UpdateAccount {
        id: Some(AccountId::from_bytes([1; 12])),
        email: Some("x".to_string()),
        first_name: None,
        last_name: None,
    };
    let merged = update.merge_into(stored());
    assert_eq!(merged.id, stored().id);
    assert_eq!(merged.email, "x");
    let unsaved = UpdateAccount { id: Some(AccountId::from_bytes([1; 12])), ..UpdateAccount::empty() };
    assert_eq!(unsaved.merge_into(stored().without_id()).id, None);
}
