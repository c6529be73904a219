//! The rows of the credential store and the values they are created from.

use chrono::NaiveDateTime;
use vstd::prelude::*;

verus! {

/// The timestamp type of the `chrono` crate. The library carries timestamps
/// through and never looks inside one.
#[verifier::external_type_specification]
#[verifier::external_body]
pub struct ExNaiveDateTime(NaiveDateTime);

/// Calls `chrono::Local::now` and drops the time zone. The reading depends on
/// the clock, so nothing is claimed of it.
#[verifier::external_body]
pub(crate) fn local_now() -> NaiveDateTime {
    chrono::Local::now().naive_local()
}

/// A registered account.
#[derive(Debug, PartialEq)]
pub struct User {
    pub id: i32,
    pub email: String,
    pub pw_hash: String,
    pub verified: bool,
    pub created_at: NaiveDateTime,
    pub subscribed: bool,
    pub last_payment: NaiveDateTime,
    pub admin: bool,
}

/// The mathematical content of a [`User`].
pub struct UserRow {
    pub id: int,
    pub email: Seq<char>,
    pub pw_hash: Seq<char>,
    pub verified: bool,
    pub created_at: NaiveDateTime,
    pub subscribed: bool,
    pub last_payment: NaiveDateTime,
    pub admin: bool,
}

impl View for User {
    type V = UserRow;

    open spec fn view(&self) -> UserRow {
        UserRow {
            id: self.id as int,
            email: self.email@,
            pw_hash: self.pw_hash@,
            verified: self.verified,
            created_at: self.created_at,
            subscribed: self.subscribed,
            last_payment: self.last_payment,
            admin: self.admin,
        }
    }
}

impl User {
    /// A copy of this row.
    pub fn duplicate(&self) -> (copy: User)
        ensures
            copy@ == self@,
    {
        User {
            id: self.id,
            email: self.email.clone(),
            pw_hash: self.pw_hash.clone(),
            verified: self.verified,
            created_at: self.created_at,
            subscribed: self.subscribed,
            last_payment: self.last_payment,
            admin: self.admin,
        }
    }

    /// What of this account may leave the service: everything but the
    /// password hash.
    pub fn public(&self) -> (shown: PublicUser)
        ensures
            shown@ == self@.public(),
    {
        PublicUser {
            id: self.id,
            email: self.email.clone(),
            verified: self.verified,
            created_at: self.created_at,
            subscribed: self.subscribed,
            last_payment: self.last_payment,
            admin: self.admin,
        }
    }
}

impl UserRow {
    /// The values of the row, without its identifier.
    pub open spec fn values(self) -> NewUserRow {
        NewUserRow {
            email: self.email,
            pw_hash: self.pw_hash,
            verified: self.verified,
            subscribed: self.subscribed,
            created_at: self.created_at,
            last_payment: self.last_payment,
            admin: self.admin,
        }
    }

    /// The public part of the row.
    pub open spec fn public(self) -> PublicUserRow {
        PublicUserRow {
            id: self.id,
            email: self.email,
            verified: self.verified,
            created_at: self.created_at,
            subscribed: self.subscribed,
            last_payment: self.last_payment,
            admin: self.admin,
        }
    }
}

/// The public representation of an account. It has no field for the
/// password hash.
#[derive(Debug, PartialEq)]
pub struct PublicUser {
    pub id: i32,
    pub email: String,
    pub verified: bool,
    pub created_at: NaiveDateTime,
    pub subscribed: bool,
    pub last_payment: NaiveDateTime,
    pub admin: bool,
}

/// The mathematical content of a [`PublicUser`].
pub struct PublicUserRow {
    pub id: int,
    pub email: Seq<char>,
    pub verified: bool,
    pub created_at: NaiveDateTime,
    pub subscribed: bool,
    pub last_payment: NaiveDateTime,
    pub admin: bool,
}

impl View for PublicUser {
    type V = PublicUserRow;

    open spec fn view(&self) -> PublicUserRow {
        PublicUserRow {
            id: self.id as int,
            email: self.email@,
            verified: self.verified,
            created_at: self.created_at,
            subscribed: self.subscribed,
            last_payment: self.last_payment,
            admin: self.admin,
        }
    }
}

/// The values an account is created from; the store adds the id.
#[derive(Debug)]
pub struct NewUser<'a> {
    pub email: &'a str,
    pub pw_hash: &'a str,
    pub verified: bool,
    pub subscribed: bool,
    pub created_at: NaiveDateTime,
    pub last_payment: NaiveDateTime,
    pub admin: bool,
}

/// The mathematical content of a [`NewUser`].
pub struct NewUserRow {
    pub email: Seq<char>,
    pub pw_hash: Seq<char>,
    pub verified: bool,
    pub subscribed: bool,
    pub created_at: NaiveDateTime,
    pub last_payment: NaiveDateTime,
    pub admin: bool,
}

impl<'a> View for NewUser<'a> {
    type V = NewUserRow;

    open spec fn view(&self) -> NewUserRow {
        NewUserRow {
            email: self.email@,
            pw_hash: self.pw_hash@,
            verified: self.verified,
            subscribed: self.subscribed,
            created_at: self.created_at,
            last_payment: self.last_payment,
            admin: self.admin,
        }
    }
}

impl NewUserRow {
    /// The row these values make under the identifier `id`.
    pub open spec fn row(self, id: int) -> UserRow {
        UserRow {
            id,
            email: self.email,
            pw_hash: self.pw_hash,
            verified: self.verified,
            created_at: self.created_at,
            subscribed: self.subscribed,
            last_payment: self.last_payment,
            admin: self.admin,
        }
    }
}

/// An issued API token.
#[derive(Debug, PartialEq)]
pub struct APIToken {
    pub id: i32,
    pub token: String,
    pub user_id: i32,
    pub revoked: bool,
    pub created_at: NaiveDateTime,
}

/// The mathematical content of an [`APIToken`].
pub struct TokenRow {
    pub id: int,
    pub token: Seq<char>,
    pub user_id: int,
    pub revoked: bool,
    pub created_at: NaiveDateTime,
}

impl View for APIToken {
    type V = TokenRow;

    open spec fn view(&self) -> TokenRow {
        TokenRow {
            id: self.id as int,
            token: self.token@,
            user_id: self.user_id as int,
            revoked: self.revoked,
            created_at: self.created_at,
        }
    }
}

impl APIToken {
    /// A copy of this row.
    pub fn duplicate(&self) -> (copy: APIToken)
        ensures
            copy@ == self@,
    {
        APIToken {
            id: self.id,
            token: self.token.clone(),
            user_id: self.user_id,
            revoked: self.revoked,
            created_at: self.created_at,
        }
    }
}

impl TokenRow {
    /// The values the row was created from.
    pub open spec fn values(self) -> NewTokenRow {
        NewTokenRow { token: self.token, user_id_fk: self.user_id, created_at: self.created_at }
    }

    /// This row with its revoked flag set.
    pub open spec fn revoke(self) -> TokenRow {
        TokenRow { revoked: true, ..self }
    }
}

/// The values a token is created from; the store adds the id and stores it
/// unrevoked.
#[derive(Debug)]
pub struct NewToken<'a> {
    pub token: &'a str,
    pub user_id_fk: i32,
    pub created_at: NaiveDateTime,
}

/// The mathematical content of a [`NewToken`].
pub struct NewTokenRow {
    pub token: Seq<char>,
    pub user_id_fk: int,
    pub created_at: NaiveDateTime,
}

impl<'a> View for NewToken<'a> {
    type V = NewTokenRow;

    open spec fn view(&self) -> NewTokenRow {
        NewTokenRow {
            token: self.token@,
            user_id_fk: self.user_id_fk as int,
            created_at: self.created_at,
        }
    }
}

impl NewTokenRow {
    /// The row these values make under the identifier `id`.
    pub open spec fn row(self, id: int) -> TokenRow {
        TokenRow {
            id,
            token: self.token,
            user_id: self.user_id_fk,
            revoked: false,
            created_at: self.created_at,
        }
    }
}

/// One stored version of a user's trove.
#[derive(Debug, PartialEq)]
pub struct Trove {
    pub id: i32,
    pub trove_text: String,
    pub user_id: i32,
    pub created_at: NaiveDateTime,
}

/// The mathematical content of a [`Trove`].
pub struct TroveRow {
    pub id: int,
    pub trove_text: Seq<char>,
    pub user_id: int,
    pub created_at: NaiveDateTime,
}

impl View for Trove {
    type V = TroveRow;

    open spec fn view(&self) -> TroveRow {
        TroveRow {
            id: self.id as int,
            trove_text: self.trove_text@,
            user_id: self.user_id as int,
            created_at: self.created_at,
        }
    }
}

impl TroveRow {
    /// The values the row was created from.
    pub open spec fn values(self) -> NewTroveRow {
        NewTroveRow {
            trove_text: self.trove_text,
            user_id_fk: self.user_id,
            created_at: self.created_at,
        }
    }
}

impl Trove {
    /// A copy of this row.
    pub fn duplicate(&self) -> (copy: Trove)
        ensures
            copy@ == self@,
    {
        Trove {
            id: self.id,
            trove_text: self.trove_text.clone(),
            user_id: self.user_id,
            created_at: self.created_at,
        }
    }
}

/// The values a trove version is created from; the store adds the id.
#[derive(Debug)]
pub struct NewTrove<'a> {
    pub trove_text: &'a str,
    pub user_id_fk: i32,
    pub created_at: NaiveDateTime,
}

/// The mathematical content of a [`NewTrove`].
pub struct NewTroveRow {
    pub trove_text: Seq<char>,
    pub user_id_fk: int,
    pub created_at: NaiveDateTime,
}

impl<'a> View for NewTrove<'a> {
    type V = NewTroveRow;

    open spec fn view(&self) -> NewTroveRow {
        NewTroveRow {
            trove_text: self.trove_text@,
            user_id_fk: self.user_id_fk as int,
            created_at: self.created_at,
        }
    }
}

impl NewTroveRow {
    /// The row these values make under the identifier `id`.
    pub open spec fn row(self, id: int) -> TroveRow {
        TroveRow {
            id,
            trove_text: self.trove_text,
            user_id: self.user_id_fk,
            created_at: self.created_at,
        }
    }
}

} // verus!
