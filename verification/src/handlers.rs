//! The operations behind the service's routes, and the store queries they
//! are built from.

use crate::auth::{admission, resolution, validator};
use crate::errors::{
    external_error, uniform_authentication_error, AuthError, ErrorShape, IssuanceError,
    ServiceError, StoreError,
};
use crate::models::{
    local_now, APIToken, NewToken, NewTokenRow, NewTrove, NewUser, NewUserRow, PublicUser,
    PublicUserRow, TokenRow, Trove, TroveRow, User, UserRow,
};
use crate::store::{trove_view, user_view, Store, StoreState};
use crate::utils::{
    decode_token, decoded_token, generate_api_token, hash_password, is_api_token, ok_view,
    text_from_utf8, verification, verify,
};
use chrono::NaiveDateTime;
use vstd::prelude::*;
use vstd::utf8::{decode_utf8, valid_utf8};

verus! {

/// How many candidate values one issuance may try before it gives up.
pub const TOKEN_ATTEMPTS: usize = 3;

/// The status of an answer that hands something out.
pub const OK: u16 = 200;

/// The status of an answer to a request that stored something.
pub const CREATED: u16 = 201;

/// A successful answer of a route: its HTTP status and its payload.
#[derive(Debug, PartialEq)]
pub struct Reply<T> {
    pub status: u16,
    pub body: T,
}

/// What leaves a route: status and payload, or the failure.
pub open spec fn answer<T: View>(r: Result<Reply<T>, ServiceError>) -> Result<
    (int, T::V),
    ErrorShape,
> {
    match r {
        Ok(reply) => Ok((reply.status as int, reply.body@)),
        Err(e) => Err(e@),
    }
}

/// An outcome under the status that its success is answered with.
pub open spec fn answered<V>(status: int, outcome: Result<V, ErrorShape>) -> Result<
    (int, V),
    ErrorShape,
> {
    match outcome {
        Ok(payload) => Ok((status, payload)),
        Err(e) => Err(e),
    }
}

/// The body of a registration request.
#[derive(Debug)]
pub struct InputUser {
    pub password: String,
    pub email: String,
}

/// The body of a token request.
#[derive(Debug)]
pub struct InputAuthUser {
    pub password: String,
    pub email: String,
}

/// A token value together with its owner.
#[derive(Debug)]
pub struct InputApiToken {
    pub token: String,
    pub user_id: i32,
}

// ---------------------------------------------------------------------------
// Store queries
// ---------------------------------------------------------------------------

/// The user with the identifier `user_id`.
pub fn db_get_user_by_id(store: &Store, user_id: i32) -> (found: Option<User>)
    requires
        store.wf(),
    ensures
        user_view(found) == store@.user_by_id(user_id as int),
{
    store.find_user_by_id(user_id)
}

/// The current trove of the user `user_id`: the one stored last.
pub fn db_get_latest_trove_by_user_id(store: &Store, user_id: i32) -> (found: Option<Trove>)
    ensures
        trove_view(found) == store@.latest_trove(user_id as int),
{
    store.latest_trove(user_id)
}

/// The user registered under `user_email`.
pub fn db_get_user_by_email(store: &Store, user_email: &str) -> (found: Option<User>)
    ensures
        user_view(found) == store@.user_by_email(user_email@),
{
    store.find_user_by_email(user_email)
}

/// The owner of the token that a credential stands for, whether or not the
/// token is revoked.
pub open spec fn owner_of(s: StoreState, credentials: Seq<char>) -> Result<UserRow, AuthError> {
    match decoded_token(credentials) {
        Err(_) => Err(AuthError::Malformed),
        Ok(value) => match s.token_by_value(value) {
            None => Err(AuthError::Unknown),
            Some(token) => match s.user_by_id(token.user_id) {
                None => Err(AuthError::OrphanToken),
                Some(user) => Ok(user),
            },
        },
    }
}

/// Resolves a credential to the user who owns its token. Revocation is not
/// looked at here.
pub fn db_get_user_by_api_token(store: &Store, requested_api_token: &str) -> (r: Result<
    User,
    AuthError,
>)
    requires
        store.wf(),
    ensures
        ok_view(r) == owner_of(store@, requested_api_token@),
{
    match decode_token(requested_api_token) {
        Err(_) => Err(AuthError::Malformed),
        Ok(value) => match store.find_token_by_value(value.as_str()) {
            None => Err(AuthError::Unknown),
            Some(token) => match store.find_user_by_id(token.user_id) {
                None => Err(AuthError::OrphanToken),
                Some(user) => Ok(user),
            },
        },
    }
}

/// Whether the token that a credential stands for is stored as revoked.
pub open spec fn revoked_in(s: StoreState, credentials: Seq<char>) -> Result<bool, AuthError> {
    match decoded_token(credentials) {
        Err(_) => Err(AuthError::Malformed),
        Ok(value) => Ok(s.token_by_value_and_revoked(value, true) is Some),
    }
}

/// Tells whether a credential stands for a revoked token. A token that is
/// not stored is not revoked.
pub fn db_is_token_revoked(store: &Store, requested_api_token: &str) -> (r: Result<
    bool,
    AuthError,
>)
    requires
        store.wf(),
    ensures
        r == revoked_in(store@, requested_api_token@),
{
    match decode_token(requested_api_token) {
        Err(_) => Err(AuthError::Malformed),
        Ok(value) => {
            let user_api_token = store.find_token_by_value_and_revoked(value.as_str(), true);
            if user_api_token.is_some() {
                return Ok(true);
            }
            Ok(false)
        },
    }
}

/// The store after the token with the value `value` was revoked; a value
/// that is not stored changes nothing.
pub open spec fn with_value_revoked(s: StoreState, value: Seq<char>) -> StoreState {
    match s.token_by_value(value) {
        Some(token) => s.with_token_revoked(token.id),
        None => s,
    }
}

/// Revokes the token that a credential stands for. Revoking a token that is
/// revoked already, or one that is not stored, succeeds and changes nothing.
pub fn db_update_api_token(store: &mut Store, requested_api_token: &str) -> (r: Result<
    bool,
    AuthError,
>)
    requires
        old(store).wf(),
    ensures
        final(store).wf(),
        old(store)@.evolves_to(final(store)@),
        match decoded_token(requested_api_token@) {
            Err(_) => r == Err::<bool, AuthError>(AuthError::Malformed) && final(store)@ == old(
                store,
            )@,
            Ok(value) => r == Ok::<bool, AuthError>(true) && final(store)@ == with_value_revoked(
                old(store)@,
                value,
            ),
        },
{
    match decode_token(requested_api_token) {
        Err(_) => Err(AuthError::Malformed),
        Ok(value) => {
            let token_option = store.find_token_by_value(value.as_str());
            if let Some(token) = token_option {
                let _ = store.set_token_revoked(token.id);
            }
            Ok(true)
        },
    }
}

/// How many users are registered under `user_email`.
pub fn db_count_user_email(store: &Store, user_email: &str) -> (count: usize)
    ensures
        count == store@.count_with_email(user_email@),
{
    store.count_users_with_email(user_email)
}

/// All users, in the order in which they registered.
pub fn get_all_users(store: &Store) -> (all: Vec<User>)
    ensures
        all@.map_values(|u: User| u@) == store@.users,
{
    store.list_users()
}

// ---------------------------------------------------------------------------
// Issuance
// ---------------------------------------------------------------------------

/// Whether candidate `k` is the first one whose value is not stored yet.
pub open spec fn fresh_at(s: StoreState, candidates: Seq<String>, k: int) -> bool {
    &&& 0 <= k < candidates.len()
    &&& s.token_by_value(candidates[k]@) is None
    &&& forall|j: int| 0 <= j < k ==> s.token_by_value((#[trigger] candidates[j])@) is Some
}

/// Stores a token for `user_id` under the first candidate value that is not
/// stored yet. A candidate that collides is passed over; when all collide
/// the issuance fails.
pub fn db_add_api_token_from(
    store: &mut Store,
    user_id: i32,
    candidates: &Vec<String>,
    created_at: NaiveDateTime,
) -> (r: Result<APIToken, IssuanceError>)
    requires
        old(store).wf(),
    ensures
        final(store).wf(),
        old(store)@.evolves_to(final(store)@),
        match r {
            Ok(token) => exists|k: int|
                {
                    &&& #[trigger] fresh_at(old(store)@, candidates@, k)
                    &&& old(store)@.next_token_id < i32::MAX
                    &&& token@ == (NewTokenRow {
                        token: candidates@[k]@,
                        user_id_fk: user_id as int,
                        created_at,
                    }).row(old(store)@.next_token_id)
                    &&& final(store)@ == old(store)@.with_token(token@.values())
                },
            Err(IssuanceError::StoreExhausted) => {
                &&& final(store)@ == old(store)@
                &&& candidates@.len() > 0
                &&& old(store)@.next_token_id == i32::MAX
            },
            Err(IssuanceError::TokenGenerationError) => {
                &&& final(store)@ == old(store)@
                &&& candidates@.len() == 0 || old(store)@.next_token_id < i32::MAX
                &&& forall|k: int|
                    0 <= k < candidates@.len() ==> old(store)@.token_by_value(
                        (#[trigger] candidates@[k])@,
                    ) is Some
            },
        },
{
    let mut k: usize = 0;
    while k < candidates.len()
        invariant
            k <= candidates.len(),
            store.wf(),
            store@ == old(store)@,
            k > 0 ==> old(store)@.next_token_id < i32::MAX,
            forall|j: int|
                0 <= j < k ==> old(store)@.token_by_value((#[trigger] candidates@[j])@) is Some,
        decreases candidates.len() - k,
    {
        let new_token = NewToken { token: candidates[k].as_str(), user_id_fk: user_id, created_at };
        match store.insert_token(&new_token) {
            Ok(token) => {
                assert(fresh_at(old(store)@, candidates@, k as int));
                return Ok(token);
            },
            Err(cause) => {
                if cause == StoreError::Exhausted {
                    return Err(IssuanceError::StoreExhausted);
                }
            },
        }
        k = k + 1;
    }
    Err(IssuanceError::TokenGenerationError)
}

/// Issues a token for `user_id`: draws up to `TOKEN_ATTEMPTS` values from
/// the generator, reads the clock, and stores the first value that is free.
/// Whatever was drawn, a token that is handed out is new, unrevoked and of
/// the generator's form, and a failure leaves the store as it was.
pub fn db_add_api_token(store: &mut Store, user_id: i32) -> (r: Result<APIToken, IssuanceError>)
    requires
        old(store).wf(),
    ensures
        final(store).wf(),
        old(store)@.evolves_to(final(store)@),
        match r {
            Ok(token) => {
                &&& is_api_token(token@.token)
                &&& token@.user_id == user_id
                &&& !token@.revoked
                &&& token@.id == old(store)@.next_token_id
                &&& old(store)@.token_by_value(token@.token) is None
                &&& final(store)@ == old(store)@.with_token(token@.values())
            },
            Err(cause) => {
                &&& final(store)@ == old(store)@
                &&& cause == IssuanceError::StoreExhausted <==> old(store)@.next_token_id
                    == i32::MAX
                &&& cause == IssuanceError::TokenGenerationError ==> old(store)@.tokens.len() > 0
            },
        },
{
    let mut candidates: Vec<String> = Vec::new();
    while candidates.len() < TOKEN_ATTEMPTS
        invariant
            candidates.len() <= TOKEN_ATTEMPTS,
            forall|j: int| 0 <= j < candidates.len() ==> is_api_token((#[trigger] candidates@[j])@),
        decreases TOKEN_ATTEMPTS - candidates.len(),
    {
        candidates.push(generate_api_token());
    }
    let created_at = local_now();
    let issued = db_add_api_token_from(store, user_id, &candidates, created_at);
    proof {
        if issued is Err && issued->Err_0 == IssuanceError::TokenGenerationError {
            assert(old(store)@.token_by_value(candidates@[0]@) is Some);
        }
    }
    issued
}

/// How the durable store answered the write of an issued token.
#[derive(Debug, Clone, Copy, PartialEq, Eq, Structural)]
pub enum InsertOutcome {
    /// The row is stored.
    Stored,
    /// The store holds the value already.
    UniqueViolation,
    /// The store failed for another reason.
    Failed,
}

/// What an issuance does after the durable store has answered.
#[derive(Debug, Clone, Copy, PartialEq, Eq, Structural)]
pub enum IssueStep {
    /// The token is issued.
    Done,
    /// Draw another value and write again.
    DrawAgain,
    /// Fail the issuance.
    GiveUp,
}

/// The step that follows an answer of the durable store, `collisions` values
/// having collided before it: a collision is answered with another draw as
/// long as fewer than `TOKEN_ATTEMPTS` values were tried in all.
pub open spec fn issue_step(collisions: nat, outcome: InsertOutcome) -> IssueStep {
    match outcome {
        InsertOutcome::Stored => IssueStep::Done,
        InsertOutcome::UniqueViolation => if collisions + 1 < TOKEN_ATTEMPTS {
            IssueStep::DrawAgain
        } else {
            IssueStep::GiveUp
        },
        InsertOutcome::Failed => IssueStep::GiveUp,
    }
}

/// Decides how an issuance goes on after the durable store has answered the
/// write of a token, `collisions` values having collided before.
pub fn next_issue_step(collisions: usize, outcome: InsertOutcome) -> (step: IssueStep)
    ensures
        step == issue_step(collisions as nat, outcome),
{
    match outcome {
        InsertOutcome::Stored => IssueStep::Done,
        InsertOutcome::UniqueViolation => {
            if collisions < TOKEN_ATTEMPTS - 1 {
                IssueStep::DrawAgain
            } else {
                IssueStep::GiveUp
            }
        },
        InsertOutcome::Failed => IssueStep::GiveUp,
    }
}

/// Why a token request is turned away before anything is issued: no user
/// has the address, or the stored hash is unreadable, or the password does
/// not fit. The first and the last are reported alike.
pub open spec fn login_refusal(s: StoreState, email: Seq<char>, password: Seq<char>) -> Option<
    ErrorShape,
> {
    match s.user_by_email(email) {
        None => Some(uniform_authentication_error()),
        Some(user) => match verification(user.pw_hash, password) {
            Err(e) => Some(e),
            Ok(fits) => if fits {
                None
            } else {
                Some(uniform_authentication_error())
            },
        },
    }
}

/// Whether `after` is `before` with `token` issued: a new, unrevoked row
/// under the next identifier, its value of the generator's form and not
/// stored before, and nothing else changed.
pub open spec fn issued(before: StoreState, after: StoreState, token: TokenRow) -> bool {
    &&& is_api_token(token.token)
    &&& !token.revoked
    &&& token.id == before.next_token_id
    &&& before.token_by_value(token.token) is None
    &&& after == before.with_token(token.values())
}

/// Issues a token to the user who presents the address and password of an
/// account. An unknown address and a wrong password get the same uniform
/// failure, and every failure leaves the store as it was.
pub fn create_api_token(store: &mut Store, item: &InputAuthUser) -> (r: Result<
    Reply<APIToken>,
    ServiceError,
>)
    requires
        old(store).wf(),
    ensures
        final(store).wf(),
        old(store)@.evolves_to(final(store)@),
        match login_refusal(old(store)@, item.email@, item.password@) {
            Some(refusal) => {
                &&& r matches Err(e)
                &&& e@ == refusal
                &&& final(store)@ == old(store)@
            },
            None => match r {
                Ok(reply) => {
                    &&& reply.status == CREATED
                    &&& Some(reply.body@.user_id) == user_id_of(
                        old(store)@.user_by_email(item.email@),
                    )
                    &&& issued(old(store)@, final(store)@, reply.body@)
                },
                Err(e) => {
                    &&& e@ == ErrorShape::InternalServerError
                    &&& final(store)@ == old(store)@
                    &&& old(store)@.next_token_id == i32::MAX || old(store)@.tokens.len() > 0
                },
            },
        },
{
    let user = match db_get_user_by_email(store, item.email.as_str()) {
        Some(user) => user,
        None => return Err(ServiceError::authentication_failed()),
    };
    match verify(user.pw_hash.as_str(), item.password.as_str()) {
        Err(e) => Err(e),
        Ok(fits) => {
            if fits {
                match db_add_api_token(store, user.id) {
                    Ok(token) => Ok(Reply { status: CREATED, body: token }),
                    Err(_) => Err(ServiceError::InternalServerError),
                }
            } else {
                Err(ServiceError::authentication_failed())
            }
        },
    }
}

/// The identifier of an optional user row.
pub open spec fn user_id_of(user: Option<UserRow>) -> Option<int> {
    match user {
        Some(u) => Some(u.id),
        None => None,
    }
}

/// Revokes the token that the bearer credential stands for and confirms it,
/// whatever the state of the token was. Only a credential that cannot be
/// decoded is refused, with the uniform failure.
pub fn revoke_api_token(store: &mut Store, auth: &str) -> (r: Result<
    Reply<String>,
    ServiceError,
>)
    requires
        old(store).wf(),
    ensures
        final(store).wf(),
        old(store)@.evolves_to(final(store)@),
        match decoded_token(auth@) {
            Err(_) => {
                &&& r matches Err(e)
                &&& e@ == uniform_authentication_error()
                &&& final(store)@ == old(store)@
            },
            Ok(value) => {
                &&& r matches Ok(reply)
                &&& reply.status == CREATED
                &&& reply.body@ == "Revoked the access with the API key"@
                &&& final(store)@ == with_value_revoked(old(store)@, value)
            },
        },
{
    match db_update_api_token(store, auth) {
        Ok(_) => Ok(
            Reply { status: CREATED, body: String::from_str("Revoked the access with the API key") },
        ),
        Err(cause) => Err(external_error(cause)),
    }
}

// ---------------------------------------------------------------------------
// Registration
// ---------------------------------------------------------------------------

/// Hashes the password of a registration and stores the account with the
/// default flags: not subscribed, no administrator, verified as the service
/// is configured. Whatever salt and clock reading were drawn, the stored hash
/// verifies against the password; a failure leaves the store as it was.
pub fn add_single_user(store: &mut Store, item: &InputUser, verified: bool) -> (r: Result<
    User,
    ServiceError,
>)
    requires
        old(store).wf(),
    ensures
        final(store).wf(),
        old(store)@.evolves_to(final(store)@),
        match r {
            Ok(user) => {
                &&& user@.id == old(store)@.next_user_id
                &&& user@.email == item.email@
                &&& verification(user@.pw_hash, item.password@) == Ok::<bool, ErrorShape>(true)
                &&& user@.verified == verified
                &&& !user@.subscribed
                &&& !user@.admin
                &&& final(store)@ == old(store)@.with_user(user@.values())
            },
            Err(e) => {
                &&& e@ == ErrorShape::InternalServerError
                &&& final(store)@ == old(store)@
            },
        },
        r is Ok <==> old(store)@.next_user_id < i32::MAX,
{
    let hashed_password = match hash_password(item.password.as_str()) {
        Ok(record) => record,
        Err(e) => return Err(e),
    };
    let new_user = NewUser {
        email: item.email.as_str(),
        pw_hash: hashed_password.as_str(),
        verified,
        subscribed: false,
        created_at: local_now(),
        last_payment: local_now(),
        admin: false,
    };
    match store.insert_user(&new_user) {
        Ok(user) => Ok(user),
        Err(_) => Err(ServiceError::InternalServerError),
    }
}

/// Why a registration is turned away before anything is hashed. The
/// address is looked at first: an empty one is malformed, a taken one is a
/// duplicate whatever the password is. Only then is an empty password
/// refused.
pub open spec fn registration_refusal(
    s: StoreState,
    email: Seq<char>,
    password: Seq<char>,
) -> Option<ErrorShape> {
    if email.len() == 0 {
        Some(ErrorShape::BadRequest("Email and password must not be empty"@))
    } else if s.count_with_email(email) > 0 {
        Some(ErrorShape::RegistrationError("Email already in use"@))
    } else if password.len() == 0 {
        Some(ErrorShape::BadRequest("Email and password must not be empty"@))
    } else {
        None
    }
}

/// Whether `after` is `before` with an account registered under `email`
/// and shown as `shown`: a new row under the next identifier, with a hash
/// that verifies against `password`, the default flags, and nothing else
/// changed.
pub open spec fn registered(
    before: StoreState,
    after: StoreState,
    shown: PublicUserRow,
    email: Seq<char>,
    password: Seq<char>,
    verified: bool,
) -> bool {
    exists|user: UserRow|
        {
            &&& shown == user.public()
            &&& user.id == before.next_user_id
            &&& user.email == email
            &&& #[trigger] verification(user.pw_hash, password) == Ok::<bool, ErrorShape>(true)
            &&& user.verified == verified
            &&& !user.subscribed
            &&& !user.admin
            &&& after == before.with_user(user.values())
        }
}

/// Registers an account. An empty address, an address that is taken and an
/// empty password are refused, in that order, and leave the store as it was;
/// otherwise the account is stored with a freshly hashed password and shown
/// without the hash.
pub fn register_user(store: &mut Store, item: &InputUser, verified: bool) -> (r: Result<
    Reply<PublicUser>,
    ServiceError,
>)
    requires
        old(store).wf(),
    ensures
        final(store).wf(),
        old(store)@.evolves_to(final(store)@),
        match registration_refusal(old(store)@, item.email@, item.password@) {
            Some(refusal) => {
                &&& r matches Err(e)
                &&& e@ == refusal
                &&& final(store)@ == old(store)@
            },
            None => match r {
                Ok(reply) => {
                    &&& reply.status == CREATED
                    &&& registered(
                        old(store)@,
                        final(store)@,
                        reply.body@,
                        item.email@,
                        item.password@,
                        verified,
                    )
                },
                Err(e) => {
                    &&& e@ == ErrorShape::InternalServerError
                    &&& final(store)@ == old(store)@
                },
            },
        },
        registration_refusal(old(store)@, item.email@, item.password@) is None ==> (r is Ok
            <==> old(store)@.next_user_id < i32::MAX),
{
    if item.email.as_str().is_empty() {
        return Err(
            ServiceError::BadRequest(String::from_str("Email and password must not be empty")),
        );
    }
    let is_unique = db_count_user_email(store, item.email.as_str()) == 0;
    if is_unique {
        if item.password.as_str().is_empty() {
            return Err(
                ServiceError::BadRequest(String::from_str("Email and password must not be empty")),
            );
        }
        match add_single_user(store, item, verified) {
            Ok(user) => {
                assert(verification(user@.pw_hash, item.password@) == Ok::<bool, ErrorShape>(true));
                Ok(Reply { status: CREATED, body: user.public() })
            },
            Err(e) => Err(e),
        }
    } else {
        Err(ServiceError::RegistrationError(String::from_str("Email already in use")))
    }
}

// ---------------------------------------------------------------------------
// Account and trove operations
// ---------------------------------------------------------------------------

/// Stores `trove_data` as a new version of the trove of `user_id`, stamped
/// with the clock's reading. Earlier versions stay in the store.
pub fn db_add_trove_text(store: &mut Store, user_id: i32, trove_data: &str) -> (r: Result<
    Trove,
    ServiceError,
>)
    requires
        old(store).wf(),
    ensures
        final(store).wf(),
        old(store)@.evolves_to(final(store)@),
        match r {
            Ok(trove) => {
                &&& old(store)@.next_trove_id < i32::MAX
                &&& trove@.id == old(store)@.next_trove_id
                &&& trove@.trove_text == trove_data@
                &&& trove@.user_id == user_id
                &&& final(store)@ == old(store)@.with_trove(trove@.values())
            },
            Err(e) => {
                &&& old(store)@.next_trove_id == i32::MAX
                &&& e@ == ErrorShape::InternalServerError
                &&& final(store)@ == old(store)@
            },
        },
{
    let new_trove = NewTrove { trove_text: trove_data, user_id_fk: user_id, created_at: local_now() };
    match store.insert_trove(&new_trove) {
        Ok(trove) => Ok(trove),
        Err(_) => Err(ServiceError::InternalServerError),
    }
}

/// Deletes the account `user_id` and, with it, revokes its tokens. Returns
/// the number of accounts deleted.
pub fn delete_single_user(store: &mut Store, user_id: i32) -> (count: usize)
    requires
        old(store).wf(),
    ensures
        final(store).wf(),
        old(store)@.evolves_to(final(store)@),
        final(store)@ == old(store)@.without_user(user_id as int),
        count == (if old(store)@.user_by_id(user_id as int) is Some {
            1int
        } else {
            0int
        }),
{
    store.delete_user(user_id)
}

/// The greeting of the service.
pub fn info() -> (reply: Reply<String>)
    ensures
        reply.status == OK,
        reply.body@ == "Hello troveserver!"@,
{
    Reply { status: OK, body: String::from_str("Hello troveserver!") }
}

/// The text of a user's current trove; the empty text where none is stored.
pub open spec fn current_text(s: StoreState, user_id: int) -> Seq<char> {
    match s.latest_trove(user_id) {
        Some(trove) => trove.trove_text,
        None => Seq::empty(),
    }
}

/// What reading the trove behind a credential yields.
pub open spec fn trove_reading(s: StoreState, auth: Seq<char>) -> Result<Seq<char>, ErrorShape> {
    match admission(resolution(s, auth)) {
        Ok(user) => Ok(current_text(s, user.id)),
        Err(e) => Err(e),
    }
}

/// Reads the current trove of the user behind the bearer credential. A
/// credential that does not pass the guard is rejected before the troves are
/// looked at.
pub fn get_trove_by_profile(store: &Store, auth: &str) -> (r: Result<
    Reply<String>,
    ServiceError,
>)
    requires
        store.wf(),
    ensures
        answer(r) == answered(OK as int, trove_reading(store@, auth@)),
{
    let user = match validator(store, auth) {
        Ok(user) => user,
        Err(e) => return Err(e),
    };
    match db_get_latest_trove_by_user_id(store, user.id) {
        Some(trove) => Ok(Reply { status: OK, body: trove.trove_text }),
        None => Ok(Reply { status: OK, body: String::new() }),
    }
}

/// Why a trove is not stored: the credential does not pass the guard, or the
/// payload is not text.
pub open spec fn saving_refusal(s: StoreState, auth: Seq<char>, trove_data: Seq<u8>) -> Option<
    ErrorShape,
> {
    match admission(resolution(s, auth)) {
        Err(e) => Some(e),
        Ok(_) => if valid_utf8(trove_data) {
            None
        } else {
            Some(ErrorShape::BadRequest("Trove is not valid UTF-8"@))
        },
    }
}

/// Stores the payload as the new current trove of the user behind the bearer
/// credential. A rejected request leaves the store as it was.
pub fn save_trove_by_token(store: &mut Store, auth: &str, trove_data: &[u8]) -> (r: Result<
    Reply<String>,
    ServiceError,
>)
    requires
        old(store).wf(),
    ensures
        final(store).wf(),
        old(store)@.evolves_to(final(store)@),
        match saving_refusal(old(store)@, auth@, trove_data@) {
            Some(refusal) => {
                &&& r matches Err(e)
                &&& e@ == refusal
                &&& final(store)@ == old(store)@
            },
            None => match r {
                Ok(reply) => {
                    &&& reply.status == CREATED
                    &&& reply.body@ == "Saved trove!"@
                    &&& old(store)@.next_trove_id < i32::MAX
                    &&& exists|trove: TroveRow|
                        {
                            &&& trove.id == old(store)@.next_trove_id
                            &&& trove.trove_text == decode_utf8(trove_data@)
                            &&& Ok::<int, AuthError>(trove.user_id) == user_id_in(
                                resolution(old(store)@, auth@),
                            )
                            &&& final(store)@ == old(store)@.with_trove(#[trigger] trove.values())
                        }
                },
                Err(e) => {
                    &&& e@ == ErrorShape::InternalServerError
                    &&& old(store)@.next_trove_id == i32::MAX
                    &&& final(store)@ == old(store)@
                },
            },
        },
{
    let user = match validator(store, auth) {
        Ok(user) => user,
        Err(e) => return Err(e),
    };
    let text = match text_from_utf8(trove_data) {
        Some(text) => text,
        None => return Err(ServiceError::BadRequest(String::from_str("Trove is not valid UTF-8"))),
    };
    match db_add_trove_text(store, user.id, text) {
        Ok(_) => Ok(Reply { status: CREATED, body: String::from_str("Saved trove!") }),
        Err(e) => Err(e),
    }
}

/// The identifier of a resolved user.
pub open spec fn user_id_in(resolved: Result<UserRow, AuthError>) -> Result<int, AuthError> {
    match resolved {
        Ok(user) => Ok(user.id),
        Err(cause) => Err(cause),
    }
}

/// What looking an account up by identifier yields: its public part, or an
/// internal error where no account has the identifier.
pub open spec fn user_lookup(s: StoreState, user_id: int) -> Result<PublicUserRow, ErrorShape> {
    match s.user_by_id(user_id) {
        Some(user) => Ok(user.public()),
        None => Err(ErrorShape::InternalServerError),
    }
}

/// Shows the account with the identifier `user_id`, without its hash.
pub fn get_user_by_id(store: &Store, user_id: i32) -> (r: Result<
    Reply<PublicUser>,
    ServiceError,
>)
    requires
        store.wf(),
    ensures
        answer(r) == answered(OK as int, user_lookup(store@, user_id as int)),
{
    match db_get_user_by_id(store, user_id) {
        Some(user) => Ok(Reply { status: OK, body: user.public() }),
        None => Err(ServiceError::InternalServerError),
    }
}

/// What asking for the account behind a credential yields.
pub open spec fn profile(s: StoreState, auth: Seq<char>) -> Result<PublicUserRow, ErrorShape> {
    match admission(resolution(s, auth)) {
        Ok(user) => Ok(user.public()),
        Err(e) => Err(e),
    }
}

/// Shows the account of the user behind the bearer credential, without its
/// hash.
pub fn get_user_by_token(auth: &str, store: &Store) -> (r: Result<
    Reply<PublicUser>,
    ServiceError,
>)
    requires
        store.wf(),
    ensures
        answer(r) == answered(OK as int, profile(store@, auth@)),
{
    match validator(store, auth) {
        Ok(user) => Ok(Reply { status: OK, body: user.public() }),
        Err(e) => Err(e),
    }
}

/// Deletes the account of the user behind the bearer credential and revokes
/// that user's tokens. A rejected request leaves the store as it was.
pub fn delete_user_by_token(store: &mut Store, auth: &str) -> (r: Result<
    Reply<String>,
    ServiceError,
>)
    requires
        old(store).wf(),
    ensures
        final(store).wf(),
        old(store)@.evolves_to(final(store)@),
        match admission(resolution(old(store)@, auth@)) {
            Err(refusal) => {
                &&& r matches Err(e)
                &&& e@ == refusal
                &&& final(store)@ == old(store)@
            },
            Ok(user) => {
                &&& r matches Ok(reply)
                &&& reply.status == OK
                &&& reply.body@ == "Deleted user"@
                &&& final(store)@ == old(store)@.without_user(user.id)
            },
        },
{
    let user = match validator(store, auth) {
        Ok(user) => user,
        Err(e) => return Err(e),
    };
    let _ = delete_single_user(store, user.id);
    Ok(Reply { status: OK, body: String::from_str("Deleted user") })
}

/// Registering an address twice: once an account was stored under an
/// address that was free, exactly one row has the address, and every further
/// registration under it is refused as a duplicate, whatever password it
/// brings, which leaves that one row.
pub proof fn duplicate_email_is_refused(
    s: StoreState,
    first: NewUserRow,
    password: Seq<char>,
    again: Seq<char>,
)
    requires
        s.wf(),
        s.next_user_id < i32::MAX,
        registration_refusal(s, first.email, password) is None,
    ensures
        s.with_user(first).wf(),
        s.with_user(first).count_with_email(first.email) == 1,
        registration_refusal(s.with_user(first), first.email, again) == Some(
            ErrorShape::RegistrationError("Email already in use"@),
        ),
{
    let pred = |u: UserRow| u.email == first.email;
    s.users.lemma_filter_len_push(pred, first.row(s.next_user_id));
}

} // verus!
