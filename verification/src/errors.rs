//! Failure kinds of the service, inside and at the protocol boundary.

use vstd::prelude::*;

verus! {

/// Why a presented bearer credential was not resolved to a user.
///
/// The four causes are kept apart inside the library only; the request guard
/// reports all of them with one and the same [`ServiceError`].
#[derive(Debug, Clone, Copy, PartialEq, Eq, Structural)]
pub enum AuthError {
    /// The credential could not be decoded into a token value.
    Malformed,
    /// No token record holds the decoded value.
    Unknown,
    /// The token record exists and has been revoked.
    Revoked,
    /// The token record is live but its owner is gone.
    OrphanToken,
}

/// Why the credential store refused an operation.
#[derive(Debug, Clone, Copy, PartialEq, Eq, Structural)]
pub enum StoreError {
    /// A row with the same token value is already stored.
    UniqueViolation,
    /// The table has handed out its last identifier.
    Exhausted,
    /// A row brought in from elsewhere has an identifier that is not above
    /// those already stored, or the largest identifier there is.
    OutOfOrder,
}

/// Why no token could be issued to an authenticated user.
#[derive(Debug, Clone, Copy, PartialEq, Eq, Structural)]
pub enum IssuanceError {
    /// Every candidate value collided with a stored token.
    TokenGenerationError,
    /// The token table has handed out its last identifier.
    StoreExhausted,
}

/// A failure as the routing layer reports it to a client.
#[derive(Debug)]
pub enum ServiceError {
    InternalServerError,
    BadRequest(String),
    JWKSFetchError,
    AuthenticationError(String),
    RegistrationError(String),
}

/// The mathematical content of a [`ServiceError`]: its kind and message.
pub enum ErrorShape {
    InternalServerError,
    BadRequest(Seq<char>),
    JWKSFetchError,
    AuthenticationError(Seq<char>),
    RegistrationError(Seq<char>),
}

impl View for ServiceError {
    type V = ErrorShape;

    open spec fn view(&self) -> ErrorShape {
        match self {
            ServiceError::InternalServerError => ErrorShape::InternalServerError,
            ServiceError::BadRequest(m) => ErrorShape::BadRequest(m@),
            ServiceError::JWKSFetchError => ErrorShape::JWKSFetchError,
            ServiceError::AuthenticationError(m) => ErrorShape::AuthenticationError(m@),
            ServiceError::RegistrationError(m) => ErrorShape::RegistrationError(m@),
        }
    }
}

impl ErrorShape {
    /// The HTTP status the failure is answered with.
    pub open spec fn status(self) -> int {
        match self {
            ErrorShape::InternalServerError => 500,
            ErrorShape::BadRequest(_) => 400,
            ErrorShape::JWKSFetchError => 500,
            ErrorShape::AuthenticationError(_) => 400,
            ErrorShape::RegistrationError(_) => 400,
        }
    }

    /// The message the failure is answered with.
    pub open spec fn message(self) -> Seq<char> {
        match self {
            ErrorShape::InternalServerError => "Internal Server Error, Please try later"@,
            ErrorShape::BadRequest(m) => m,
            ErrorShape::JWKSFetchError => "Could not fetch JWKS"@,
            ErrorShape::AuthenticationError(m) => m,
            ErrorShape::RegistrationError(m) => m,
        }
    }

    /// The one-line rendering of the failure.
    pub open spec fn rendering(self) -> Seq<char> {
        match self {
            ErrorShape::InternalServerError => "Internal Server Error"@,
            ErrorShape::BadRequest(m) => "BadRequest: "@ + m,
            ErrorShape::JWKSFetchError => "JWKSFetchError"@,
            ErrorShape::AuthenticationError(m) => "AuthenticationError: "@ + m,
            ErrorShape::RegistrationError(m) => "RegistrationError: "@ + m,
        }
    }
}

/// The single shape in which every authentication failure leaves the service.
pub open spec fn uniform_authentication_error() -> ErrorShape {
    ErrorShape::AuthenticationError("Invalid token"@)
}

impl ServiceError {
    /// The HTTP status this failure is answered with: 500 for the two
    /// internal kinds, 400 for the others.
    pub fn status_code(&self) -> (code: u16)
        ensures
            code == self@.status(),
    {
        match self {
            ServiceError::InternalServerError => 500,
            ServiceError::BadRequest(_) => 400,
            ServiceError::JWKSFetchError => 500,
            ServiceError::AuthenticationError(_) => 400,
            ServiceError::RegistrationError(_) => 400,
        }
    }

    /// The message this failure is answered with.
    pub fn message(&self) -> (text: String)
        ensures
            text@ == self@.message(),
    {
        match self {
            ServiceError::InternalServerError => String::from_str(
                "Internal Server Error, Please try later",
            ),
            ServiceError::BadRequest(m) => m.clone(),
            ServiceError::JWKSFetchError => String::from_str("Could not fetch JWKS"),
            ServiceError::AuthenticationError(m) => m.clone(),
            ServiceError::RegistrationError(m) => m.clone(),
        }
    }

    /// The one-line rendering of this failure, kind first.
    pub fn to_string(&self) -> (text: String)
        ensures
            text@ == self@.rendering(),
    {
        match self {
            ServiceError::InternalServerError => String::from_str("Internal Server Error"),
            ServiceError::BadRequest(m) => String::from_str("BadRequest: ").concat(m.as_str()),
            ServiceError::JWKSFetchError => String::from_str("JWKSFetchError"),
            ServiceError::AuthenticationError(m) => String::from_str(
                "AuthenticationError: ",
            ).concat(m.as_str()),
            ServiceError::RegistrationError(m) => String::from_str("RegistrationError: ").concat(
                m.as_str(),
            ),
        }
    }

    /// The failure every rejected credential is reported with.
    pub fn authentication_failed() -> (e: ServiceError)
        ensures
            e@ == uniform_authentication_error(),
    {
        ServiceError::AuthenticationError(String::from_str("Invalid token"))
    }
}

/// Reports a resolution failure at the protocol boundary. The cause is
/// dropped: every cause is answered alike.
pub fn external_error(cause: AuthError) -> (e: ServiceError)
    ensures
        e@ == uniform_authentication_error(),
{
    match cause {
        AuthError::Malformed | AuthError::Unknown | AuthError::Revoked | AuthError::OrphanToken => {
            ServiceError::authentication_failed()
        },
    }
}

} // verus!
