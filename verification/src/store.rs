//! The credential store: users, API tokens and troves, held in memory.
//!
//! Rows are kept in the order in which they were inserted. Identifiers are
//! handed out in increasing order and never reused, token values are unique,
//! and a token row is never removed: revoking it is the only way to end it.

use crate::errors::StoreError;
use crate::models::{
    APIToken, NewToken, NewTokenRow, NewTrove, NewTroveRow, NewUser, NewUserRow, TokenRow, Trove,
    TroveRow, User, UserRow,
};
use crate::utils::text_eq;
use vstd::prelude::*;

verus! {

/// The mathematical content of a [`Store`]: its three tables and the next
/// identifier of each.
#[verifier::ext_equal]
pub struct StoreState {
    pub users: Seq<UserRow>,
    pub tokens: Seq<TokenRow>,
    pub troves: Seq<TroveRow>,
    pub next_user_id: int,
    pub next_token_id: int,
    pub next_trove_id: int,
}

impl StoreState {
    /// The store with no rows.
    pub open spec fn empty() -> StoreState {
        StoreState {
            users: Seq::empty(),
            tokens: Seq::empty(),
            troves: Seq::empty(),
            next_user_id: 1,
            next_token_id: 1,
            next_trove_id: 1,
        }
    }

    /// Identifiers grow along each table and stay below the next one to be
    /// handed out; no two tokens share a value.
    pub open spec fn wf(self) -> bool {
        &&& 1 <= self.next_user_id <= i32::MAX
        &&& 1 <= self.next_token_id <= i32::MAX
        &&& 1 <= self.next_trove_id <= i32::MAX
        &&& forall|i: int|
            0 <= i < self.users.len() ==> (#[trigger] self.users[i]).id < self.next_user_id
        &&& forall|i: int, j: int|
            0 <= i < j < self.users.len() ==> (#[trigger] self.users[i]).id < (
            #[trigger] self.users[j]).id
        &&& forall|i: int|
            0 <= i < self.tokens.len() ==> (#[trigger] self.tokens[i]).id < self.next_token_id
        &&& forall|i: int, j: int|
            0 <= i < j < self.tokens.len() ==> (#[trigger] self.tokens[i]).id < (
            #[trigger] self.tokens[j]).id
        &&& forall|i: int, j: int|
            0 <= i < j < self.tokens.len() ==> (#[trigger] self.tokens[i]).token != (
            #[trigger] self.tokens[j]).token
        &&& forall|i: int|
            0 <= i < self.troves.len() ==> (#[trigger] self.troves[i]).id < self.next_trove_id
        &&& forall|i: int, j: int|
            0 <= i < j < self.troves.len() ==> (#[trigger] self.troves[i]).id < (
            #[trigger] self.troves[j]).id
    }

    // ----- users -----
    /// Whether row `i` of the user table has the identifier `id`.
    pub open spec fn user_at(self, id: int, i: int) -> bool {
        0 <= i < self.users.len() && self.users[i].id == id
    }

    /// The position of the user with the identifier `id`.
    pub open spec fn user_index(self, id: int) -> Option<int> {
        if exists|i: int| self.user_at(id, i) {
            Some(choose|i: int| self.user_at(id, i))
        } else {
            None
        }
    }

    /// The user with the identifier `id`.
    pub open spec fn user_by_id(self, id: int) -> Option<UserRow> {
        match self.user_index(id) {
            Some(i) => Some(self.users[i]),
            None => None,
        }
    }

    /// Whether row `i` is the first user row with the address `email`.
    pub open spec fn first_with_email(self, email: Seq<char>, i: int) -> bool {
        &&& 0 <= i < self.users.len()
        &&& self.users[i].email == email
        &&& forall|j: int| 0 <= j < i ==> (#[trigger] self.users[j]).email != email
    }

    /// The first user, in insertion order, with the address `email`.
    pub open spec fn user_by_email(self, email: Seq<char>) -> Option<UserRow> {
        if exists|i: int| self.first_with_email(email, i) {
            Some(self.users[choose|i: int| self.first_with_email(email, i)])
        } else {
            None
        }
    }

    /// How many user rows have the address `email`.
    pub open spec fn count_with_email(self, email: Seq<char>) -> nat {
        self.users.filter(|u: UserRow| u.email == email).len()
    }

    /// The store after a user made from `new_user` was inserted.
    pub open spec fn with_user(self, new_user: NewUserRow) -> StoreState {
        StoreState {
            users: self.users.push(new_user.row(self.next_user_id)),
            next_user_id: self.next_user_id + 1,
            ..self
        }
    }

    /// The store after the row `user`, stored elsewhere before, was taken
    /// over with its identifier.
    pub open spec fn with_loaded_user(self, user: UserRow) -> StoreState {
        StoreState { users: self.users.push(user), next_user_id: user.id + 1, ..self }
    }

    /// The store after the user `id` was deleted: the row is gone and every
    /// token of that user is revoked.
    pub open spec fn without_user(self, id: int) -> StoreState {
        StoreState {
            users: match self.user_index(id) {
                Some(i) => self.users.remove(i),
                None => self.users,
            },
            tokens: self.tokens.map_values(
                |t: TokenRow|
                    if t.user_id == id {
                        t.revoke()
                    } else {
                        t
                    },
            ),
            ..self
        }
    }

    // ----- tokens -----
    /// Whether row `i` of the token table holds the token value `value`.
    pub open spec fn token_at(self, value: Seq<char>, i: int) -> bool {
        0 <= i < self.tokens.len() && self.tokens[i].token == value
    }

    /// The token row that holds the value `value`.
    pub open spec fn token_by_value(self, value: Seq<char>) -> Option<TokenRow> {
        if exists|i: int| self.token_at(value, i) {
            Some(self.tokens[choose|i: int| self.token_at(value, i)])
        } else {
            None
        }
    }

    /// The token row that holds the value `value` and whose revoked flag
    /// is `revoked`.
    pub open spec fn token_by_value_and_revoked(self, value: Seq<char>, revoked: bool) -> Option<
        TokenRow,
    > {
        match self.token_by_value(value) {
            Some(t) => if t.revoked == revoked {
                Some(t)
            } else {
                None
            },
            None => None,
        }
    }

    /// Whether some token row has the identifier `id`.
    pub open spec fn has_token_id(self, id: int) -> bool {
        exists|i: int| 0 <= i < self.tokens.len() && (#[trigger] self.tokens[i]).id == id
    }

    /// The store after a token made from `new_token` was inserted.
    pub open spec fn with_token(self, new_token: NewTokenRow) -> StoreState {
        StoreState {
            tokens: self.tokens.push(new_token.row(self.next_token_id)),
            next_token_id: self.next_token_id + 1,
            ..self
        }
    }

    /// The store after the row `token`, stored elsewhere before, was taken
    /// over with its identifier and its revoked flag.
    pub open spec fn with_loaded_token(self, token: TokenRow) -> StoreState {
        StoreState { tokens: self.tokens.push(token), next_token_id: token.id + 1, ..self }
    }

    /// The store after the token with the identifier `id` was revoked.
    pub open spec fn with_token_revoked(self, id: int) -> StoreState {
        StoreState {
            tokens: self.tokens.map_values(
                |t: TokenRow|
                    if t.id == id {
                        t.revoke()
                    } else {
                        t
                    },
            ),
            ..self
        }
    }

    // ----- troves -----
    /// Whether row `i` is the last trove row of the user `user_id`.
    pub open spec fn latest_at(self, user_id: int, i: int) -> bool {
        &&& 0 <= i < self.troves.len()
        &&& self.troves[i].user_id == user_id
        &&& forall|j: int| i < j < self.troves.len() ==> (#[trigger] self.troves[j]).user_id != user_id
    }

    /// The trove row of the user `user_id` that was inserted last.
    pub open spec fn latest_trove(self, user_id: int) -> Option<TroveRow> {
        if exists|i: int| self.latest_at(user_id, i) {
            Some(self.troves[choose|i: int| self.latest_at(user_id, i)])
        } else {
            None
        }
    }

    /// The store after a trove made from `new_trove` was inserted.
    pub open spec fn with_trove(self, new_trove: NewTroveRow) -> StoreState {
        StoreState {
            troves: self.troves.push(new_trove.row(self.next_trove_id)),
            next_trove_id: self.next_trove_id + 1,
            ..self
        }
    }

    /// The store after the row `trove`, stored elsewhere before, was taken
    /// over with its identifier.
    pub open spec fn with_loaded_trove(self, trove: TroveRow) -> StoreState {
        StoreState { troves: self.troves.push(trove), next_trove_id: trove.id + 1, ..self }
    }

    // ----- history -----
    /// Whether `later` can follow this store: every token row is still in
    /// its place with its identifier, value and owner, and a revoked flag
    /// that was set is still set.
    pub open spec fn evolves_to(self, later: StoreState) -> bool {
        &&& self.tokens.len() <= later.tokens.len()
        &&& forall|i: int|
            #![trigger self.tokens[i]]
            0 <= i < self.tokens.len() ==> {
                &&& later.tokens[i].id == self.tokens[i].id
                &&& later.tokens[i].token == self.tokens[i].token
                &&& later.tokens[i].user_id == self.tokens[i].user_id
                &&& (self.tokens[i].revoked ==> later.tokens[i].revoked)
            }
    }
}

/// In a well-formed store the row found under an identifier is the only one.
pub proof fn lemma_user_found(s: StoreState, id: int, i: int)
    requires
        s.wf(),
        s.user_at(id, i),
    ensures
        s.user_index(id) == Some(i),
        s.user_by_id(id) == Some(s.users[i]),
{
}

/// In a well-formed store the row found under a token value is the only one.
pub proof fn lemma_token_found(s: StoreState, value: Seq<char>, i: int)
    requires
        s.wf(),
        s.token_at(value, i),
    ensures
        s.token_by_value(value) == Some(s.tokens[i]),
{
}

/// The first row with an address is the one `user_by_email` names.
pub proof fn lemma_email_found(s: StoreState, email: Seq<char>, i: int)
    requires
        s.first_with_email(email, i),
    ensures
        s.user_by_email(email) == Some(s.users[i]),
{
}

/// The last row of a user is the one `latest_trove` names.
pub proof fn lemma_latest_found(s: StoreState, user_id: int, i: int)
    requires
        s.latest_at(user_id, i),
    ensures
        s.latest_trove(user_id) == Some(s.troves[i]),
{
}

/// The credential store.
pub struct Store {
    users: Vec<User>,
    tokens: Vec<APIToken>,
    troves: Vec<Trove>,
    next_user_id: i32,
    next_token_id: i32,
    next_trove_id: i32,
}

impl View for Store {
    type V = StoreState;

    closed spec fn view(&self) -> StoreState {
        StoreState {
            users: self.users@.map_values(|u: User| u@),
            tokens: self.tokens@.map_values(|t: APIToken| t@),
            troves: self.troves@.map_values(|t: Trove| t@),
            next_user_id: self.next_user_id as int,
            next_token_id: self.next_token_id as int,
            next_trove_id: self.next_trove_id as int,
        }
    }
}

/// The view of an optional user.
pub open spec fn user_view(user: Option<User>) -> Option<UserRow> {
    match user {
        Some(u) => Some(u@),
        None => None,
    }
}

/// The view of an optional token.
pub open spec fn token_view(token: Option<APIToken>) -> Option<TokenRow> {
    match token {
        Some(t) => Some(t@),
        None => None,
    }
}

/// The view of an optional trove.
pub open spec fn trove_view(trove: Option<Trove>) -> Option<TroveRow> {
    match trove {
        Some(t) => Some(t@),
        None => None,
    }
}

impl Store {
    /// The invariant of the store, stated on its content.
    pub open spec fn wf(&self) -> bool {
        self@.wf()
    }

    /// An empty store whose identifiers start at 1.
    pub fn new() -> (store: Store)
        ensures
            store.wf(),
            store@ == StoreState::empty(),
    {
        let store = Store {
            users: Vec::new(),
            tokens: Vec::new(),
            troves: Vec::new(),
            next_user_id: 1,
            next_token_id: 1,
            next_trove_id: 1,
        };
        store
    }

    fn user_position(&self, id: i32) -> (at: Option<usize>)
        ensures
            match at {
                Some(i) => self@.user_at(id as int, i as int),
                None => forall|k: int| !self@.user_at(id as int, k),
            },
    {
        let mut i: usize = 0;
        while i < self.users.len()
            invariant
                i <= self.users.len(),
                forall|k: int| 0 <= k < i ==> !self@.user_at(id as int, k),
            decreases self.users.len() - i,
        {
            if self.users[i].id == id {
                return Some(i);
            }
            i = i + 1;
        }
        None
    }

    /// Looks a user up by identifier.
    pub fn find_user_by_id(&self, id: i32) -> (found: Option<User>)
        requires
            self.wf(),
        ensures
            user_view(found) == self@.user_by_id(id as int),
    {
        match self.user_position(id) {
            Some(i) => {
                proof {
                    lemma_user_found(self@, id as int, i as int);
                }
                Some(self.users[i].duplicate())
            },
            None => None,
        }
    }

    /// Looks a user up by address; of several rows the first is returned.
    pub fn find_user_by_email(&self, email: &str) -> (found: Option<User>)
        ensures
            user_view(found) == self@.user_by_email(email@),
    {
        let mut i: usize = 0;
        while i < self.users.len()
            invariant
                i <= self.users.len(),
                forall|k: int| 0 <= k < i ==> (#[trigger] self@.users[k]).email != email@,
            decreases self.users.len() - i,
        {
            if text_eq(self.users[i].email.as_str(), email) {
                proof {
                    lemma_email_found(self@, email@, i as int);
                }
                return Some(self.users[i].duplicate());
            }
            i = i + 1;
        }
        None
    }

    /// Counts the users registered under an address.
    pub fn count_users_with_email(&self, email: &str) -> (count: usize)
        ensures
            count == self@.count_with_email(email@),
    {
        let ghost pred = |u: UserRow| u.email == email@;
        let mut count: usize = 0;
        let mut i: usize = 0;
        while i < self.users.len()
            invariant
                i <= self.users.len(),
                count <= i,
                pred == (|u: UserRow| u.email == email@),
                count == self@.users.take(i as int).filter(pred).len(),
            decreases self.users.len() - i,
        {
            proof {
                let rows = self@.users;
                rows.lemma_take_succ_push(i as int);
                rows.take(i as int).lemma_filter_push(rows[i as int], pred);
            }
            if text_eq(self.users[i].email.as_str(), email) {
                count = count + 1;
            }
            i = i + 1;
        }
        assert(self@.users.take(i as int) =~= self@.users);
        count
    }

    /// Inserts a user under the next identifier. Fails, and changes nothing,
    /// only when the identifiers are used up.
    pub fn insert_user(&mut self, new_user: &NewUser) -> (r: Result<User, StoreError>)
        requires
            old(self).wf(),
        ensures
            final(self).wf(),
            old(self)@.evolves_to(final(self)@),
            match r {
                Ok(u) => {
                    &&& old(self)@.next_user_id < i32::MAX
                    &&& u@ == new_user@.row(old(self)@.next_user_id)
                    &&& final(self)@ == old(self)@.with_user(new_user@)
                },
                Err(e) => {
                    &&& old(self)@.next_user_id == i32::MAX
                    &&& e == StoreError::Exhausted
                    &&& final(self)@ == old(self)@
                },
            },
    {
        if self.next_user_id == i32::MAX {
            return Err(StoreError::Exhausted);
        }
        let user = User {
            id: self.next_user_id,
            email: String::from_str(new_user.email),
            pw_hash: String::from_str(new_user.pw_hash),
            verified: new_user.verified,
            created_at: new_user.created_at,
            subscribed: new_user.subscribed,
            last_payment: new_user.last_payment,
            admin: new_user.admin,
        };
        let stored = user.duplicate();
        self.users.push(user);
        self.next_user_id = self.next_user_id + 1;
        assert(self@ =~= old(self)@.with_user(new_user@));
        Ok(stored)
    }

    /// Deletes the user `id` and revokes every token of that user. Returns
    /// the number of user rows deleted.
    pub fn delete_user(&mut self, id: i32) -> (deleted: usize)
        requires
            old(self).wf(),
        ensures
            final(self).wf(),
            old(self)@.evolves_to(final(self)@),
            final(self)@ == old(self)@.without_user(id as int),
            deleted == (if old(self)@.user_by_id(id as int) is Some {
                1int
            } else {
                0int
            }),
    {
        let mut deleted: usize = 0;
        if let Some(i) = self.user_position(id) {
            proof {
                lemma_user_found(self@, id as int, i as int);
            }
            self.users.remove(i);
            deleted = 1;
        }
        let ghost before = self@;
        let mut k: usize = 0;
        while k < self.tokens.len()
            invariant
                k <= self.tokens.len(),
                self@.tokens.len() == before.tokens.len(),
                self@.users == before.users,
                self@.troves == before.troves,
                self@.next_user_id == before.next_user_id,
                self@.next_token_id == before.next_token_id,
                self@.next_trove_id == before.next_trove_id,
                forall|j: int|
                    0 <= j < k ==> (#[trigger] self.tokens@[j])@ == (if before.tokens[j].user_id
                        == id {
                        before.tokens[j].revoke()
                    } else {
                        before.tokens[j]
                    }),
                forall|j: int|
                    k <= j < self.tokens.len() ==> (#[trigger] self.tokens@[j])@
                        == before.tokens[j],
            decreases self.tokens.len() - k,
        {
            if self.tokens[k].user_id == id {
                self.tokens[k].revoked = true;
            }
            k = k + 1;
        }
        assert(self@ =~= old(self)@.without_user(id as int));
        deleted
    }

    /// All users, in insertion order.
    pub fn list_users(&self) -> (all: Vec<User>)
        ensures
            all@.map_values(|u: User| u@) == self@.users,
    {
        let mut all: Vec<User> = Vec::new();
        let mut i: usize = 0;
        while i < self.users.len()
            invariant
                i <= self.users.len(),
                all@.len() == i,
                forall|k: int| 0 <= k < i ==> (#[trigger] all@[k])@ == self@.users[k],
            decreases self.users.len() - i,
        {
            all.push(self.users[i].duplicate());
            i = i + 1;
        }
        all
    }

    fn token_position(&self, value: &str) -> (at: Option<usize>)
        ensures
            match at {
                Some(i) => self@.token_at(value@, i as int),
                None => forall|k: int| !self@.token_at(value@, k),
            },
    {
        let mut i: usize = 0;
        while i < self.tokens.len()
            invariant
                i <= self.tokens.len(),
                forall|k: int| 0 <= k < i ==> !self@.token_at(value@, k),
            decreases self.tokens.len() - i,
        {
            if text_eq(self.tokens[i].token.as_str(), value) {
                return Some(i);
            }
            i = i + 1;
        }
        None
    }

    /// Looks a token up by its exact value.
    pub fn find_token_by_value(&self, value: &str) -> (found: Option<APIToken>)
        requires
            self.wf(),
        ensures
            token_view(found) == self@.token_by_value(value@),
    {
        match self.token_position(value) {
            Some(i) => {
                proof {
                    lemma_token_found(self@, value@, i as int);
                }
                Some(self.tokens[i].duplicate())
            },
            None => None,
        }
    }

    /// Looks a token up by its exact value and the state of its revoked flag.
    pub fn find_token_by_value_and_revoked(&self, value: &str, revoked: bool) -> (found: Option<
        APIToken,
    >)
        requires
            self.wf(),
        ensures
            token_view(found) == self@.token_by_value_and_revoked(value@, revoked),
    {
        match self.find_token_by_value(value) {
            Some(token) => {
                if token.revoked == revoked {
                    Some(token)
                } else {
                    None
                }
            },
            None => None,
        }
    }

    /// Inserts an unrevoked token under the next identifier. Fails, and
    /// changes nothing, when the identifiers are used up or when the value is
    /// already stored.
    pub fn insert_token(&mut self, new_token: &NewToken) -> (r: Result<APIToken, StoreError>)
        requires
            old(self).wf(),
        ensures
            final(self).wf(),
            old(self)@.evolves_to(final(self)@),
            match r {
                Ok(t) => {
                    &&& old(self)@.next_token_id < i32::MAX
                    &&& old(self)@.token_by_value(new_token@.token) is None
                    &&& t@ == new_token@.row(old(self)@.next_token_id)
                    &&& final(self)@ == old(self)@.with_token(new_token@)
                },
                Err(e) => {
                    &&& final(self)@ == old(self)@
                    &&& e == (if old(self)@.next_token_id == i32::MAX {
                        StoreError::Exhausted
                    } else {
                        StoreError::UniqueViolation
                    })
                    &&& e == StoreError::UniqueViolation ==> old(self)@.token_by_value(
                        new_token@.token,
                    ) is Some
                },
            },
    {
        if self.next_token_id == i32::MAX {
            return Err(StoreError::Exhausted);
        }
        if self.token_position(new_token.token).is_some() {
            return Err(StoreError::UniqueViolation);
        }
        let token = APIToken {
            id: self.next_token_id,
            token: String::from_str(new_token.token),
            user_id: new_token.user_id_fk,
            revoked: false,
            created_at: new_token.created_at,
        };
        let stored = token.duplicate();
        self.tokens.push(token);
        self.next_token_id = self.next_token_id + 1;
        assert(self@ =~= old(self)@.with_token(new_token@));
        assert forall|i: int| 0 <= i < old(self)@.tokens.len() implies (
        #[trigger] old(self)@.tokens[i]).token != new_token@.token by {
            assert(!old(self)@.token_at(new_token@.token, i));
        }
        Ok(stored)
    }

    /// Sets the revoked flag of the token with the identifier `id`. Returns
    /// the number of rows that have that identifier; a flag that is set stays
    /// set.
    pub fn set_token_revoked(&mut self, id: i32) -> (touched: usize)
        requires
            old(self).wf(),
        ensures
            final(self).wf(),
            old(self)@.evolves_to(final(self)@),
            final(self)@ == old(self)@.with_token_revoked(id as int),
            touched == (if old(self)@.has_token_id(id as int) {
                1int
            } else {
                0int
            }),
    {
        let mut touched: usize = 0;
        let mut k: usize = 0;
        while k < self.tokens.len()
            invariant
                old(self).wf(),
                k <= self.tokens.len(),
                touched <= 1,
                self@.tokens.len() == old(self)@.tokens.len(),
                self@.users == old(self)@.users,
                self@.troves == old(self)@.troves,
                self@.next_user_id == old(self)@.next_user_id,
                self@.next_token_id == old(self)@.next_token_id,
                self@.next_trove_id == old(self)@.next_trove_id,
                touched == 1 <==> exists|j: int| 0 <= j < k && (#[trigger] old(self)@.tokens[j]).id == id,
                forall|j: int|
                    0 <= j < k ==> (#[trigger] self.tokens@[j])@ == (if old(self)@.tokens[j].id
                        == id {
                        old(self)@.tokens[j].revoke()
                    } else {
                        old(self)@.tokens[j]
                    }),
                forall|j: int|
                    k <= j < self.tokens.len() ==> (#[trigger] self.tokens@[j])@ == old(
                        self,
                    )@.tokens[j],
            decreases self.tokens.len() - k,
        {
            if self.tokens[k].id == id {
                proof {
                    if touched == 1 {
                        let j = choose|j: int| 0 <= j < k && (#[trigger] old(self)@.tokens[j]).id == id;
                    }
                }
                self.tokens[k].revoked = true;
                touched = 1;
            }
            k = k + 1;
        }
        touched
    }

    /// The trove of the user `user_id` that was inserted last.
    pub fn latest_trove(&self, user_id: i32) -> (found: Option<Trove>)
        ensures
            trove_view(found) == self@.latest_trove(user_id as int),
    {
        let mut best: Option<usize> = None;
        let mut i: usize = 0;
        while i < self.troves.len()
            invariant
                i <= self.troves.len(),
                match best {
                    Some(b) => b < i && self@.troves[b as int].user_id == user_id && forall|j: int|
                        b < j < i ==> (#[trigger] self@.troves[j]).user_id != user_id,
                    None => forall|j: int|
                        0 <= j < i ==> (#[trigger] self@.troves[j]).user_id != user_id,
                },
            decreases self.troves.len() - i,
        {
            if self.troves[i].user_id == user_id {
                best = Some(i);
            }
            i = i + 1;
        }
        match best {
            Some(b) => {
                proof {
                    lemma_latest_found(self@, user_id as int, b as int);
                }
                Some(self.troves[b].duplicate())
            },
            None => {
                None
            },
        }
    }

    /// Inserts a trove under the next identifier. Fails, and changes nothing,
    /// only when the identifiers are used up.
    pub fn insert_trove(&mut self, new_trove: &NewTrove) -> (r: Result<Trove, StoreError>)
        requires
            old(self).wf(),
        ensures
            final(self).wf(),
            old(self)@.evolves_to(final(self)@),
            match r {
                Ok(t) => {
                    &&& old(self)@.next_trove_id < i32::MAX
                    &&& t@ == new_trove@.row(old(self)@.next_trove_id)
                    &&& final(self)@ == old(self)@.with_trove(new_trove@)
                },
                Err(e) => {
                    &&& old(self)@.next_trove_id == i32::MAX
                    &&& e == StoreError::Exhausted
                    &&& final(self)@ == old(self)@
                },
            },
    {
        if self.next_trove_id == i32::MAX {
            return Err(StoreError::Exhausted);
        }
        let trove = Trove {
            id: self.next_trove_id,
            trove_text: String::from_str(new_trove.trove_text),
            user_id: new_trove.user_id_fk,
            created_at: new_trove.created_at,
        };
        let stored = trove.duplicate();
        self.troves.push(trove);
        self.next_trove_id = self.next_trove_id + 1;
        assert(self@ =~= old(self)@.with_trove(new_trove@));
        Ok(stored)
    }

    /// The number of user rows.
    pub fn user_count(&self) -> (count: usize)
        ensures
            count == self@.users.len(),
    {
        self.users.len()
    }

    /// The number of token rows, revoked ones included.
    pub fn token_count(&self) -> (count: usize)
        ensures
            count == self@.tokens.len(),
    {
        self.tokens.len()
    }

    /// The number of trove rows, earlier versions included.
    pub fn trove_count(&self) -> (count: usize)
        ensures
            count == self@.troves.len(),
    {
        self.troves.len()
    }

    /// Takes over a user row that was stored elsewhere, keeping its
    /// identifier. Rows are taken in the order of their identifiers: one that
    /// is not above every stored identifier is refused.
    pub fn load_user(&mut self, user: User) -> (r: Result<(), StoreError>)
        requires
            old(self).wf(),
        ensures
            final(self).wf(),
            old(self)@.evolves_to(final(self)@),
            match r {
                Ok(_) => {
                    &&& old(self)@.next_user_id <= user@.id < i32::MAX
                    &&& final(self)@ == old(self)@.with_loaded_user(user@)
                },
                Err(e) => {
                    &&& !(old(self)@.next_user_id <= user@.id < i32::MAX)
                    &&& e == StoreError::OutOfOrder
                    &&& final(self)@ == old(self)@
                },
            },
    {
        if user.id < self.next_user_id || user.id == i32::MAX {
            return Err(StoreError::OutOfOrder);
        }
        self.next_user_id = user.id + 1;
        self.users.push(user);
        assert(self@ =~= old(self)@.with_loaded_user(user@));
        Ok(())
    }

    /// Takes over a token row that was stored elsewhere, keeping its
    /// identifier and its revoked flag. Rows are taken in the order of their
    /// identifiers, and a value that is stored already is refused.
    pub fn load_token(&mut self, token: APIToken) -> (r: Result<(), StoreError>)
        requires
            old(self).wf(),
        ensures
            final(self).wf(),
            old(self)@.evolves_to(final(self)@),
            match r {
                Ok(_) => {
                    &&& old(self)@.next_token_id <= token@.id < i32::MAX
                    &&& old(self)@.token_by_value(token@.token) is None
                    &&& final(self)@ == old(self)@.with_loaded_token(token@)
                },
                Err(e) => {
                    &&& final(self)@ == old(self)@
                    &&& e == (if old(self)@.next_token_id <= token@.id < i32::MAX {
                        StoreError::UniqueViolation
                    } else {
                        StoreError::OutOfOrder
                    })
                    &&& e == StoreError::UniqueViolation ==> old(self)@.token_by_value(
                        token@.token,
                    ) is Some
                },
            },
    {
        if token.id < self.next_token_id || token.id == i32::MAX {
            return Err(StoreError::OutOfOrder);
        }
        if self.token_position(token.token.as_str()).is_some() {
            return Err(StoreError::UniqueViolation);
        }
        self.next_token_id = token.id + 1;
        self.tokens.push(token);
        assert(self@ =~= old(self)@.with_loaded_token(token@));
        assert forall|i: int| 0 <= i < old(self)@.tokens.len() implies (
        #[trigger] old(self)@.tokens[i]).token != token@.token by {
            assert(!old(self)@.token_at(token@.token, i));
        }
        Ok(())
    }

    /// Takes over a trove row that was stored elsewhere, keeping its
    /// identifier. Rows are taken in the order of their identifiers.
    pub fn load_trove(&mut self, trove: Trove) -> (r: Result<(), StoreError>)
        requires
            old(self).wf(),
        ensures
            final(self).wf(),
            old(self)@.evolves_to(final(self)@),
            match r {
                Ok(_) => {
                    &&& old(self)@.next_trove_id <= trove@.id < i32::MAX
                    &&& final(self)@ == old(self)@.with_loaded_trove(trove@)
                },
                Err(e) => {
                    &&& !(old(self)@.next_trove_id <= trove@.id < i32::MAX)
                    &&& e == StoreError::OutOfOrder
                    &&& final(self)@ == old(self)@
                },
            },
    {
        if trove.id < self.next_trove_id || trove.id == i32::MAX {
            return Err(StoreError::OutOfOrder);
        }
        self.next_trove_id = trove.id + 1;
        self.troves.push(trove);
        assert(self@ =~= old(self)@.with_loaded_trove(trove@));
        Ok(())
    }
}

} // verus!
