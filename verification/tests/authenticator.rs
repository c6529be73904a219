use chrono::{NaiveDate, NaiveDateTime};
use troveserver::auth::{resolve, validate_token, validator};
use troveserver::errors::{external_error, AuthError, ServiceError};
use troveserver::handlers::{
    db_get_user_by_api_token, db_is_token_revoked, db_update_api_token, revoke_api_token,
};
use troveserver::models::{APIToken, NewToken, NewUser, User};
use troveserver::store::Store;

fn stamp() -> NaiveDateTime {
    NaiveDate::from_ymd_opt(2024, 5, 17).unwrap().and_hms_opt(8, 30, 0).unwrap()
}

fn bearer(token: &str) -> String {
    base64::encode(token)
}

fn add_user(store: &mut Store, email: &str) -> User {
    store
        .insert_user(&NewUser {
            email,
            pw_hash: "unused",
            verified: true,
            subscribed: false,
            created_at: stamp(),
            last_payment: stamp(),
            admin: false,
        })
        .unwrap()
}

fn add_token(store: &mut Store, token: &str, user_id: i32) -> APIToken {
    store.insert_token(&NewToken { token, user_id_fk: user_id, created_at: stamp() }).unwrap()
}

fn message_of(error: &ServiceError) -> String {
    error.message()
}

#[test]
fn live_token_resolves_to_its_owner() {
    let mut store = Store::new();
    let _a = add_user(&mut store, "a@x.com");
    let b = add_user(&mut store, "b@x.com");
    add_token(&mut store, "tokenA", 1);
    add_token(&mut store, "tokenB", b.id);
    assert_eq!(resolve(&store, &bearer("tokenB")), Ok(b.duplicate()));
    assert_eq!(validator(&store, &bearer("tokenB")).unwrap(), b);
    assert_eq!(validate_token(&store, &bearer("tokenB")).unwrap(), true);
    assert_eq!(db_is_token_revoked(&store, &bearer("tokenB")), Ok(false));
    assert_eq!(db_get_user_by_api_token(&store, &bearer("tokenB")), Ok(b));
}

#[test]
fn each_cause_of_rejection_is_told_apart_inside() {
    let mut store = Store::new();
    let a = add_user(&mut store, "a@x.com");
    let live = add_token(&mut store, "revoked", a.id);
    store.set_token_revoked(live.id);
    add_token(&mut store, "orphan", 42);

    assert_eq!(resolve(&store, "%%%"), Err(AuthError::Malformed));
    assert_eq!(resolve(&store, &bearer("nobody")), Err(AuthError::Unknown));
    assert_eq!(resolve(&store, &bearer("revoked")), Err(AuthError::Revoked));
    assert_eq!(resolve(&store, &bearer("orphan")), Err(AuthError::OrphanToken));
    // The raw token value is not a credential: it has to arrive encoded.
    assert_eq!(resolve(&store, "revoked!"), Err(AuthError::Malformed));

    let text = |credential: &str| message_of(&validate_token(&store, credential).unwrap_err());
    assert_eq!(text("%%%"), "No token");
    assert_eq!(text(&bearer("nobody")), "No user for token");
    assert_eq!(text(&bearer("revoked")), "Token has revoked access");
    assert_eq!(text(&bearer("orphan")), "No user for token");
}

#[test]
fn revoked_is_checked_before_the_owner() {
    let mut store = Store::new();
    let token = add_token(&mut store, "T", 42);
    store.set_token_revoked(token.id);
    assert_eq!(resolve(&store, &bearer("T")), Err(AuthError::Revoked));
    assert_eq!(db_is_token_revoked(&store, &bearer("T")), Ok(true));
    assert_eq!(db_get_user_by_api_token(&store, &bearer("T")), Err(AuthError::OrphanToken));
}

#[test]
fn unknown_and_revoked_tokens_are_rejected_alike() {
    let mut store = Store::new();
    let a = add_user(&mut store, "a@x.com");
    let token = add_token(&mut store, "revoked", a.id);
    store.set_token_revoked(token.id);
    add_token(&mut store, "orphan", 42);

    let unknown = validator(&store, &bearer("nobody")).unwrap_err();
    let revoked = validator(&store, &bearer("revoked")).unwrap_err();
    let malformed = validator(&store, "%%%").unwrap_err();
    let orphan = validator(&store, &bearer("orphan")).unwrap_err();
    for error in [&unknown, &revoked, &malformed, &orphan] {
        assert!(matches!(error, ServiceError::AuthenticationError(_)));
        assert_eq!(error.status_code(), 400);
        assert_eq!(error.message(), "Invalid token");
        assert_eq!(error.to_string(), "AuthenticationError: Invalid token");
    }
}

#[test]
fn every_cause_maps_to_the_same_external_error() {
    for cause in
        [AuthError::Malformed, AuthError::Unknown, AuthError::Revoked, AuthError::OrphanToken]
    {
        let error = external_error(cause);
        assert_eq!(error.status_code(), 400);
        assert_eq!(error.message(), "Invalid token");
    }
}

#[test]
fn revocation_holds_through_later_operations() {
    let mut store = Store::new();
    let a = add_user(&mut store, "a@x.com");
    add_token(&mut store, "T", a.id);
    assert_eq!(resolve(&store, &bearer("T")), Ok(a.duplicate()));
    assert_eq!(db_update_api_token(&mut store, &bearer("T")), Ok(true));
    assert_eq!(resolve(&store, &bearer("T")), Err(AuthError::Revoked));

    // Nothing that happens afterwards brings the token back.
    let b = add_user(&mut store, "b@x.com");
    add_token(&mut store, "U", a.id);
    add_token(&mut store, "V", b.id);
    assert_eq!(resolve(&store, &bearer("T")), Err(AuthError::Revoked));
    assert_eq!(db_update_api_token(&mut store, &bearer("U")), Ok(true));
    assert_eq!(db_update_api_token(&mut store, &bearer("T")), Ok(true));
    assert_eq!(resolve(&store, &bearer("T")), Err(AuthError::Revoked));
    // The value cannot be issued a second time either.
    assert!(store.insert_token(&NewToken { token: "T", user_id_fk: a.id, created_at: stamp() }).is_err());
    assert_eq!(store.delete_user(a.id), 1);
    assert_eq!(resolve(&store, &bearer("T")), Err(AuthError::Revoked));
    assert!(validator(&store, &bearer("T")).is_err());
    assert_eq!(resolve(&store, &bearer("V")), Ok(b));
}

#[test]
fn revoking_is_idempotent_and_silent_about_unknown_tokens() {
    let mut store = Store::new();
    let a = add_user(&mut store, "a@x.com");
    add_token(&mut store, "T", a.id);
    add_token(&mut store, "U", a.id);

    for credential in [bearer("T"), bearer("T"), bearer("nobody")] {
        let reply = revoke_api_token(&mut store, &credential).unwrap();
        assert_eq!(reply.status, 201);
        assert_eq!(reply.body, "Revoked the access with the API key");
    }
    assert_eq!(store.token_count(), 2);
    assert_eq!(store.find_token_by_value("T").unwrap().revoked, true);
    assert_eq!(store.find_token_by_value("U").unwrap().revoked, false);
    assert_eq!(resolve(&store, &bearer("U")), Ok(a));
}

#[test]
fn revoking_with_a_malformed_credential_is_an_authentication_error() {
    let mut store = Store::new();
    add_token(&mut store, "T", 1);
    let error = revoke_api_token(&mut store, "%%%").unwrap_err();
    assert_eq!(error.status_code(), 400);
    assert_eq!(error.message(), "Invalid token");
    assert_eq!(db_update_api_token(&mut store, "%%%"), Err(AuthError::Malformed));
    assert_eq!(db_is_token_revoked(&store, "%%%"), Err(AuthError::Malformed));
    assert_eq!(store.find_token_by_value("T").unwrap().revoked, false);
}

#[test]
fn resolving_changes_nothing_and_can_be_repeated() {
    let mut store = Store::new();
    let a = add_user(&mut store, "a@x.com");
    let token = add_token(&mut store, "T", a.id);
    for _ in 0..3 {
        assert_eq!(resolve(&store, &bearer("T")), Ok(a.duplicate()));
        assert_eq!(resolve(&store, &bearer("X")), Err(AuthError::Unknown));
    }
    assert_eq!(store.find_token_by_value("T"), Some(token));
    assert_eq!(store.token_count(), 1);
    assert_eq!(store.user_count(), 1);
}
