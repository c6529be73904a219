//! The token authenticator and the guard in front of every protected
//! operation.

use crate::errors::{
    external_error, uniform_authentication_error, AuthError, ErrorShape, ServiceError,
};
use crate::handlers::{
    db_get_user_by_api_token, db_is_token_revoked, issued, login_refusal, registered,
    registration_refusal, user_id_of, with_value_revoked,
};
use crate::models::{NewTokenRow, NewUserRow, PublicUserRow, TokenRow, User, UserRow};
use crate::store::{lemma_email_found, lemma_token_found, lemma_user_found, Store, StoreState};
use crate::utils::{decoded_token, err_view, ok_view, result_view, verification};
use vstd::prelude::*;

verus! {

/// What resolving a presented credential against a store yields: the owner
/// of the token it stands for, or the first cause that rules it out.
pub open spec fn resolution(s: StoreState, credentials: Seq<char>) -> Result<UserRow, AuthError> {
    match decoded_token(credentials) {
        Err(_) => Err(AuthError::Malformed),
        Ok(value) => match s.token_by_value(value) {
            None => Err(AuthError::Unknown),
            Some(token) => if token.revoked {
                Err(AuthError::Revoked)
            } else {
                match s.user_by_id(token.user_id) {
                    None => Err(AuthError::OrphanToken),
                    Some(user) => Ok(user),
                }
            },
        },
    }
}

/// Resolves a presented bearer credential to a user. The revoked flag is
/// checked first, then the owner is looked up; nothing is written.
pub fn resolve(store: &Store, presented: &str) -> (r: Result<User, AuthError>)
    requires
        store.wf(),
    ensures
        ok_view(r) == resolution(store@, presented@),
{
    match db_is_token_revoked(store, presented) {
        Ok(is_revoked) => {
            if is_revoked {
                return Err(AuthError::Revoked);
            }
        },
        Err(cause) => return Err(cause),
    }
    db_get_user_by_api_token(store, presented)
}

/// How a resolution is reported inside the service: each cause has a
/// message of its own.
pub open spec fn validation(resolved: Result<UserRow, AuthError>) -> Result<bool, ErrorShape> {
    match resolved {
        Ok(_) => Ok(true),
        Err(AuthError::Revoked) => Err(ErrorShape::AuthenticationError("Token has revoked access"@)),
        Err(AuthError::Malformed) => Err(ErrorShape::AuthenticationError("No token"@)),
        Err(AuthError::Unknown) => Err(ErrorShape::AuthenticationError("No user for token"@)),
        Err(AuthError::OrphanToken) => Err(ErrorShape::AuthenticationError("No user for token"@)),
    }
}

/// Validates a token and names the cause of a failure in the message. The
/// messages are for the service's own use; the guard replaces them.
pub fn validate_token(store: &Store, token: &str) -> (r: Result<bool, ServiceError>)
    requires
        store.wf(),
    ensures
        err_view(r) == validation(resolution(store@, token@)),
{
    match db_is_token_revoked(store, token) {
        Ok(is_revoked) => {
            if is_revoked {
                return Err(
                    ServiceError::AuthenticationError(String::from_str("Token has revoked access")),
                );
            }
        },
        Err(_) => return Err(ServiceError::AuthenticationError(String::from_str("No token"))),
    }
    match db_get_user_by_api_token(store, token) {
        Ok(_) => {},
        Err(_) => {
            return Err(ServiceError::AuthenticationError(String::from_str("No user for token")))
        },
    }
    Ok(true)
}

/// How a resolution leaves the guard: the user, or the one uniform failure.
pub open spec fn admission(resolved: Result<UserRow, AuthError>) -> Result<UserRow, ErrorShape> {
    match resolved {
        Ok(user) => Ok(user),
        Err(_) => Err(uniform_authentication_error()),
    }
}

/// The guard of every protected operation: hands on the resolved user, or
/// rejects the request with the uniform authentication failure whatever the
/// cause was.
pub fn validator(store: &Store, credentials: &str) -> (r: Result<User, ServiceError>)
    requires
        store.wf(),
    ensures
        result_view(r) == admission(resolution(store@, credentials@)),
{
    match resolve(store, credentials) {
        Ok(user) => Ok(user),
        Err(cause) => Err(external_error(cause)),
    }
}

/// Every store can follow itself.
pub proof fn history_is_reflexive(s: StoreState)
    ensures
        s.evolves_to(s),
{
}

/// A store that follows a follower of `a` follows `a`.
pub proof fn history_is_transitive(a: StoreState, b: StoreState, c: StoreState)
    requires
        a.evolves_to(b),
        b.evolves_to(c),
    ensures
        a.evolves_to(c),
{
}

/// Revocation is monotonic: once a credential resolves to `Revoked`, it
/// resolves to `Revoked`, and so never to a user, in every store that
/// follows, whatever was registered, issued, revoked or deleted in between.
pub proof fn revocation_is_monotonic(before: StoreState, after: StoreState, credentials: Seq<char>)
    requires
        before.wf(),
        after.wf(),
        before.evolves_to(after),
        resolution(before, credentials) == Err::<UserRow, AuthError>(AuthError::Revoked),
    ensures
        resolution(after, credentials) == Err::<UserRow, AuthError>(AuthError::Revoked),
        admission(resolution(after, credentials)) == Err::<UserRow, ErrorShape>(
            uniform_authentication_error(),
        ),
{
    let value = decoded_token(credentials)->Ok_0;
    let i = choose|i: int| before.token_at(value, i);
    lemma_token_found(after, value, i);
}

/// No rejected credential can be told from another: an unknown token, a
/// revoked one, a malformed credential and a token without owner all leave
/// the guard as the same failure, and that failure is a client error.
pub proof fn rejections_are_indistinguishable(s: StoreState, first: Seq<char>, second: Seq<char>)
    requires
        resolution(s, first) is Err,
        resolution(s, second) is Err,
    ensures
        admission(resolution(s, first)) == admission(resolution(s, second)),
        admission(resolution(s, first)) == Err::<UserRow, ErrorShape>(uniform_authentication_error()),
        uniform_authentication_error().status() == 400,
{
}

/// A token that was just issued to a stored user resolves to that user.
pub proof fn issued_token_resolves(s: StoreState, credentials: Seq<char>, issued: NewTokenRow)
    requires
        s.wf(),
        s.next_token_id < i32::MAX,
        s.token_by_value(issued.token) is None,
        s.user_by_id(issued.user_id_fk) is Some,
        decoded_token(credentials) == Ok::<Seq<char>, AuthError>(issued.token),
    ensures
        s.with_token(issued).wf(),
        resolution(s.with_token(issued), credentials) == Ok::<UserRow, AuthError>(
            s.user_by_id(issued.user_id_fk)->0,
        ),
{
    let later = s.with_token(issued);
    let at = s.tokens.len() as int;
    assert forall|i: int| 0 <= i < s.tokens.len() implies (#[trigger] s.tokens[i]).token
        != issued.token by {
        assert(!s.token_at(issued.token, i));
    }
    lemma_token_found(later, issued.token, at);
    assert forall|k: int| later.user_at(issued.user_id_fk, k) == s.user_at(
        issued.user_id_fk,
        k,
    ) by {}
}

/// Once the token behind a credential is revoked, the credential is
/// rejected as revoked; revoking it once more changes nothing.
pub proof fn revoked_token_is_rejected(s: StoreState, credentials: Seq<char>)
    requires
        s.wf(),
        decoded_token(credentials) is Ok,
        s.token_by_value(decoded_token(credentials)->Ok_0) is Some,
    ensures
        with_value_revoked(s, decoded_token(credentials)->Ok_0).wf(),
        s.evolves_to(with_value_revoked(s, decoded_token(credentials)->Ok_0)),
        resolution(with_value_revoked(s, decoded_token(credentials)->Ok_0), credentials) == Err::<
            UserRow,
            AuthError,
        >(AuthError::Revoked),
        with_value_revoked(
            with_value_revoked(s, decoded_token(credentials)->Ok_0),
            decoded_token(credentials)->Ok_0,
        ) == with_value_revoked(s, decoded_token(credentials)->Ok_0),
{
    let value = decoded_token(credentials)->Ok_0;
    let i = choose|i: int| s.token_at(value, i);
    lemma_token_found(s, value, i);
    let later = with_value_revoked(s, value);
    lemma_token_found(later, value, i);
}

/// A user that was just stored is found under the identifier it was given.
pub proof fn stored_user_is_found(s: StoreState, user: NewUserRow)
    requires
        s.wf(),
        s.next_user_id < i32::MAX,
    ensures
        s.with_user(user).wf(),
        s.evolves_to(s.with_user(user)),
        s.with_user(user).user_by_id(s.next_user_id) == Some(user.row(s.next_user_id)),
{
    let later = s.with_user(user);
    let at = s.users.len() as int;
    lemma_user_found(later, s.next_user_id, at);
}

/// From registration to revocation: before a token is issued its value is
/// unknown; once it is issued to the registered user the credential resolves
/// to that user; once it is revoked the credential is rejected as revoked.
pub proof fn token_lives_from_issuance_to_revocation(
    s: StoreState,
    user: NewUserRow,
    issued: NewTokenRow,
    credentials: Seq<char>,
)
    requires
        s.wf(),
        s.next_user_id < i32::MAX,
        s.next_token_id < i32::MAX,
        s.token_by_value(issued.token) is None,
        issued.user_id_fk == s.next_user_id,
        decoded_token(credentials) == Ok::<Seq<char>, AuthError>(issued.token),
    ensures
        resolution(s.with_user(user), credentials) == Err::<UserRow, AuthError>(
            AuthError::Unknown,
        ),
        resolution(s.with_user(user).with_token(issued), credentials) == Ok::<UserRow, AuthError>(
            user.row(s.next_user_id),
        ),
        resolution(
            with_value_revoked(s.with_user(user).with_token(issued), issued.token),
            credentials,
        ) == Err::<UserRow, AuthError>(AuthError::Revoked),
{
    let registered = s.with_user(user);
    stored_user_is_found(s, user);
    assert forall|k: int| registered.token_at(issued.token, k) == s.token_at(issued.token, k) by {}
    issued_token_resolves(registered, credentials, issued);
    let live = registered.with_token(issued);
    revoked_token_is_rejected(live, credentials);
}

/// From registration to rejection: once an account is registered under a
/// free address, its address and password pass the login; a token issued to
/// it passes the guard as that account; and once that token is revoked the
/// guard rejects it with the one failure that every rejection gets, status
/// 400 and the message `Invalid token`.
pub proof fn account_is_served_until_revoked(
    empty: StoreState,
    with_account: StoreState,
    with_token: StoreState,
    shown: PublicUserRow,
    token: TokenRow,
    email: Seq<char>,
    password: Seq<char>,
    verified: bool,
    credentials: Seq<char>,
)
    requires
        empty.wf(),
        with_account.wf(),
        with_token.wf(),
        registration_refusal(empty, email, password) is None,
        registered(empty, with_account, shown, email, password, verified),
        Some(token.user_id) == user_id_of(with_account.user_by_email(email)),
        issued(with_account, with_token, token),
        decoded_token(credentials) == Ok::<Seq<char>, AuthError>(token.token),
    ensures
        login_refusal(with_account, email, password) is None,
        admission(resolution(with_token, credentials)) is Ok,
        admission(resolution(with_token, credentials))->Ok_0.public() == shown,
        admission(resolution(with_token, credentials))->Ok_0.id == token.user_id,
        admission(resolution(with_value_revoked(with_token, token.token), credentials)) == Err::<
            UserRow,
            ErrorShape,
        >(uniform_authentication_error()),
        uniform_authentication_error().status() == 400,
        uniform_authentication_error().message() == "Invalid token"@,
{
    let user = choose|user: UserRow|
        {
            &&& shown == user.public()
            &&& user.id == empty.next_user_id
            &&& user.email == email
            &&& #[trigger] verification(user.pw_hash, password) == Ok::<bool, ErrorShape>(true)
            &&& user.verified == verified
            &&& !user.subscribed
            &&& !user.admin
            &&& with_account == empty.with_user(user.values())
        };
    assert(user.values().row(empty.next_user_id) == user);
    let at = empty.users.len() as int;
    let taken = |u: UserRow| u.email == email;
    empty.users.filter_lemma(taken);
    assert forall|j: int| 0 <= j < at implies (#[trigger] with_account.users[j]).email != email by {
        if empty.users[j].email == email {
            assert(taken(empty.users[j]));
            assert(empty.users.filter(taken).contains(empty.users[j]));
        }
    }
    assert(with_account.first_with_email(email, at));
    lemma_email_found(with_account, email, at);
    stored_user_is_found(empty, user.values());
    assert(token.values().row(with_account.next_token_id) == token);
    issued_token_resolves(with_account, credentials, token.values());
    revoked_token_is_rejected(with_token, credentials);
}

} // verus!
