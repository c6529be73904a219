use chrono::{NaiveDate, NaiveDateTime};
use troveserver::errors::StoreError;
use troveserver::models::{APIToken, NewToken, NewTrove, NewUser, Trove, User};
use troveserver::store::Store;

fn stamp(day: u32) -> NaiveDateTime {
    NaiveDate::from_ymd_opt(2024, 1, day).unwrap().and_hms_opt(12, 0, 0).unwrap()
}

fn new_user<'a>(email: &'a str, pw_hash: &'a str) -> NewUser<'a> {
    NewUser {
        email,
        pw_hash,
        verified: true,
        subscribed: false,
        created_at: stamp(1),
        last_payment: stamp(2),
        admin: false,
    }
}

fn user_row(id: i32, email: &str) -> User {
    User {
        id,
        email: email.to_string(),
        pw_hash: "hash".to_string(),
        verified: false,
        created_at: stamp(3),
        subscribed: true,
        last_payment: stamp(4),
        admin: true,
    }
}

fn token_row(id: i32, token: &str, user_id: i32, revoked: bool) -> APIToken {
    APIToken { id, token: token.to_string(), user_id, revoked, created_at: stamp(5) }
}

#[test]
fn new_store_is_empty() {
    let store = Store::new();
    assert_eq!(store.user_count(), 0);
    assert_eq!(store.token_count(), 0);
    assert_eq!(store.trove_count(), 0);
    assert_eq!(store.find_user_by_id(1), None);
    assert_eq!(store.find_user_by_email("a@x.com"), None);
    assert_eq!(store.find_token_by_value("T"), None);
    assert_eq!(store.latest_trove(1), None);
    assert_eq!(store.count_users_with_email("a@x.com"), 0);
    assert!(store.list_users().is_empty());
}

#[test]
fn inserted_users_get_increasing_ids_from_one() {
    let mut store = Store::new();
    let a = store.insert_user(&new_user("a@x.com", "h1")).unwrap();
    let b = store.insert_user(&new_user("b@x.com", "h2")).unwrap();
    assert_eq!(a.id, 1);
    assert_eq!(b.id, 2);
    assert_eq!(
        a,
        User {
            id: 1,
            email: "a@x.com".to_string(),
            pw_hash: "h1".to_string(),
            verified: true,
            created_at: stamp(1),
            subscribed: false,
            last_payment: stamp(2),
            admin: false,
        }
    );
    assert_eq!(store.user_count(), 2);
    assert_eq!(store.find_user_by_id(2), Some(b.duplicate()));
    assert_eq!(store.find_user_by_id(3), None);
    assert_eq!(store.find_user_by_email("a@x.com"), Some(a.duplicate()));
    assert_eq!(store.list_users(), vec![a, b]);
}

#[test]
fn email_lookup_is_case_sensitive_and_returns_the_first_row() {
    let mut store = Store::new();
    let first = store.insert_user(&new_user("a@x.com", "h1")).unwrap();
    let _second = store.insert_user(&new_user("a@x.com", "h2")).unwrap();
    let _other = store.insert_user(&new_user("A@x.com", "h3")).unwrap();
    assert_eq!(store.find_user_by_email("a@x.com"), Some(first));
    assert_eq!(store.count_users_with_email("a@x.com"), 2);
    assert_eq!(store.count_users_with_email("A@x.com"), 1);
    assert_eq!(store.count_users_with_email("a@x.co"), 0);
}

#[test]
fn inserted_token_is_unrevoked_and_found_by_value() {
    let mut store = Store::new();
    let token =
        store.insert_token(&NewToken { token: "T1", user_id_fk: 7, created_at: stamp(6) }).unwrap();
    assert_eq!(
        token,
        APIToken { id: 1, token: "T1".to_string(), user_id: 7, revoked: false, created_at: stamp(6) }
    );
    assert_eq!(store.find_token_by_value("T1"), Some(token.duplicate()));
    assert_eq!(store.find_token_by_value("T2"), None);
    assert_eq!(store.find_token_by_value("t1"), None);
    assert_eq!(store.find_token_by_value_and_revoked("T1", false), Some(token));
    assert_eq!(store.find_token_by_value_and_revoked("T1", true), None);
    assert_eq!(store.find_token_by_value_and_revoked("T2", true), None);
}

#[test]
fn token_value_is_unique() {
    let mut store = Store::new();
    store.insert_token(&NewToken { token: "T1", user_id_fk: 1, created_at: stamp(6) }).unwrap();
    let again = store.insert_token(&NewToken { token: "T1", user_id_fk: 2, created_at: stamp(7) });
    assert_eq!(again, Err(StoreError::UniqueViolation));
    assert_eq!(store.token_count(), 1);
    let other =
        store.insert_token(&NewToken { token: "T2", user_id_fk: 2, created_at: stamp(7) }).unwrap();
    assert_eq!(other.id, 2);
}

#[test]
fn revoking_sets_the_flag_once_and_for_all() {
    let mut store = Store::new();
    let a = store.insert_token(&NewToken { token: "T1", user_id_fk: 1, created_at: stamp(6) }).unwrap();
    let b = store.insert_token(&NewToken { token: "T2", user_id_fk: 1, created_at: stamp(6) }).unwrap();
    assert_eq!(store.set_token_revoked(a.id), 1);
    assert_eq!(store.find_token_by_value("T1").unwrap().revoked, true);
    assert_eq!(store.find_token_by_value("T2").unwrap().revoked, false);
    assert_eq!(store.set_token_revoked(a.id), 1);
    assert_eq!(store.find_token_by_value("T1").unwrap().revoked, true);
    assert_eq!(store.set_token_revoked(99), 0);
    assert_eq!(store.find_token_by_value("T2"), Some(b));
    assert_eq!(store.token_count(), 2);
    assert_eq!(
        store.find_token_by_value_and_revoked("T1", true),
        Some(APIToken { revoked: true, ..a })
    );
}

#[test]
fn deleting_a_user_removes_the_row_and_revokes_the_tokens() {
    let mut store = Store::new();
    let a = store.insert_user(&new_user("a@x.com", "h1")).unwrap();
    let b = store.insert_user(&new_user("b@x.com", "h2")).unwrap();
    store.insert_token(&NewToken { token: "A1", user_id_fk: a.id, created_at: stamp(6) }).unwrap();
    store.insert_token(&NewToken { token: "B1", user_id_fk: b.id, created_at: stamp(6) }).unwrap();
    store.insert_token(&NewToken { token: "A2", user_id_fk: a.id, created_at: stamp(6) }).unwrap();
    assert_eq!(store.delete_user(a.id), 1);
    assert_eq!(store.find_user_by_id(a.id), None);
    assert_eq!(store.find_user_by_id(b.id), Some(b.duplicate()));
    assert_eq!(store.user_count(), 1);
    assert_eq!(store.token_count(), 3);
    assert_eq!(store.find_token_by_value("A1").unwrap().revoked, true);
    assert_eq!(store.find_token_by_value("A2").unwrap().revoked, true);
    assert_eq!(store.find_token_by_value("B1").unwrap().revoked, false);
    assert_eq!(store.delete_user(a.id), 0);
    // The identifier of a deleted user is not handed out again.
    let c = store.insert_user(&new_user("c@x.com", "h3")).unwrap();
    assert_eq!(c.id, 3);
}

#[test]
fn latest_trove_is_the_last_one_of_that_user() {
    let mut store = Store::new();
    store.insert_trove(&NewTrove { trove_text: "one", user_id_fk: 1, created_at: stamp(1) }).unwrap();
    store.insert_trove(&NewTrove { trove_text: "two", user_id_fk: 2, created_at: stamp(2) }).unwrap();
    let third =
        store.insert_trove(&NewTrove { trove_text: "three", user_id_fk: 1, created_at: stamp(3) }).unwrap();
    store.insert_trove(&NewTrove { trove_text: "four", user_id_fk: 2, created_at: stamp(4) }).unwrap();
    assert_eq!(
        third,
        Trove { id: 3, trove_text: "three".to_string(), user_id: 1, created_at: stamp(3) }
    );
    assert_eq!(store.latest_trove(1), Some(third));
    assert_eq!(store.latest_trove(2).unwrap().trove_text, "four");
    assert_eq!(store.latest_trove(3), None);
    // Earlier versions are kept.
    assert_eq!(store.trove_count(), 4);
}

#[test]
fn rows_are_loaded_in_the_order_of_their_ids() {
    let mut store = Store::new();
    assert_eq!(store.load_user(user_row(5, "a@x.com")), Ok(()));
    assert_eq!(store.load_user(user_row(5, "b@x.com")), Err(StoreError::OutOfOrder));
    assert_eq!(store.load_user(user_row(3, "b@x.com")), Err(StoreError::OutOfOrder));
    assert_eq!(store.load_user(user_row(9, "b@x.com")), Ok(()));
    assert_eq!(store.find_user_by_id(5), Some(user_row(5, "a@x.com")));
    assert_eq!(store.find_user_by_id(9), Some(user_row(9, "b@x.com")));
    // The next identifier follows the largest one that was loaded.
    assert_eq!(store.insert_user(&new_user("c@x.com", "h")).unwrap().id, 10);
}

#[test]
fn loaded_tokens_keep_their_flag_and_stay_unique() {
    let mut store = Store::new();
    assert_eq!(store.load_token(token_row(4, "T1", 1, true)), Ok(()));
    assert_eq!(store.load_token(token_row(6, "T1", 1, false)), Err(StoreError::UniqueViolation));
    assert_eq!(store.load_token(token_row(4, "T2", 1, false)), Err(StoreError::OutOfOrder));
    assert_eq!(store.load_token(token_row(6, "T2", 2, false)), Ok(()));
    assert_eq!(store.find_token_by_value("T1"), Some(token_row(4, "T1", 1, true)));
    assert_eq!(store.find_token_by_value_and_revoked("T1", true), Some(token_row(4, "T1", 1, true)));
    assert_eq!(store.find_token_by_value("T2"), Some(token_row(6, "T2", 2, false)));
    let next = store.insert_token(&NewToken { token: "T3", user_id_fk: 1, created_at: stamp(1) });
    assert_eq!(next.unwrap().id, 7);
}

#[test]
fn loaded_troves_keep_their_ids() {
    let mut store = Store::new();
    let trove = Trove { id: 8, trove_text: "old".to_string(), user_id: 2, created_at: stamp(1) };
    assert_eq!(store.load_trove(trove.duplicate()), Ok(()));
    assert_eq!(store.load_trove(trove.duplicate()), Err(StoreError::OutOfOrder));
    assert_eq!(store.latest_trove(2), Some(trove));
}

#[test]
fn tables_refuse_rows_when_ids_are_used_up() {
    let mut store = Store::new();
    assert_eq!(store.load_user(user_row(i32::MAX, "a@x.com")), Err(StoreError::OutOfOrder));
    assert_eq!(store.load_user(user_row(i32::MAX - 1, "a@x.com")), Ok(()));
    assert_eq!(store.insert_user(&new_user("b@x.com", "h")), Err(StoreError::Exhausted));
    assert_eq!(store.user_count(), 1);

    assert_eq!(store.load_token(token_row(i32::MAX - 1, "T1", 1, false)), Ok(()));
    let refused = store.insert_token(&NewToken { token: "T2", user_id_fk: 1, created_at: stamp(1) });
    assert_eq!(refused, Err(StoreError::Exhausted));
    // Exhaustion is reported before the value is looked at.
    let refused = store.insert_token(&NewToken { token: "T1", user_id_fk: 1, created_at: stamp(1) });
    assert_eq!(refused, Err(StoreError::Exhausted));
    assert_eq!(store.token_count(), 1);

    let last = Trove { id: i32::MAX - 1, trove_text: "t".to_string(), user_id: 1, created_at: stamp(1) };
    assert_eq!(store.load_trove(last), Ok(()));
    let refused = store.insert_trove(&NewTrove { trove_text: "u", user_id_fk: 1, created_at: stamp(1) });
    assert_eq!(refused, Err(StoreError::Exhausted));
    assert_eq!(store.trove_count(), 1);
}
