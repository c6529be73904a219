//! Password hashing and verification, token generation, credential decoding.

use crate::errors::{AuthError, ErrorShape, ServiceError};
use pbkdf2::password_hash::rand_core::OsRng;
use pbkdf2::password_hash::{PasswordHash, PasswordHasher, PasswordVerifier, SaltString};
use pbkdf2::Pbkdf2;
use rand::rngs::ThreadRng;
use rand::Rng;
use vstd::prelude::*;
use vstd::utf8::{decode_utf8, encode_utf8_decode_utf8, valid_utf8};

verus! {

/// Number of characters in every generated API token.
pub const API_TOKEN_LEN: usize = 30;

/// The characters a generated API token is drawn from.
pub const CHARSET: &'static str = "ABCDEFGHIJKLMNOPQRSTUVWXYZabcdefghijklmnopqrstuvwxyz0123456789";

/// Number of characters in the alphabet.
pub const CHARSET_LEN: usize = 62;

/// True for the letters and digits of the token alphabet.
pub open spec fn is_token_char(c: char) -> bool {
    ('A' <= c && c <= 'Z') || ('a' <= c && c <= 'z') || ('0' <= c && c <= '9')
}

/// True for a text of the fixed token length over the token alphabet.
pub open spec fn is_api_token(text: Seq<char>) -> bool {
    &&& text.len() == API_TOKEN_LEN
    &&& forall|i: int| 0 <= i < text.len() ==> is_token_char(#[trigger] text[i])
}

/// The view of a successful result, the error kept as it is.
pub open spec fn ok_view<T: View, E>(r: Result<T, E>) -> Result<T::V, E> {
    match r {
        Ok(value) => Ok(value@),
        Err(e) => Err(e),
    }
}

/// The view of a failure, the success kept as it is.
pub open spec fn err_view<T, E: View>(r: Result<T, E>) -> Result<T, E::V> {
    match r {
        Ok(value) => Ok(value),
        Err(e) => Err(e@),
    }
}

/// The views of both sides of a result.
pub open spec fn result_view<T: View, E: View>(r: Result<T, E>) -> Result<T::V, E::V> {
    match r {
        Ok(value) => Ok(value@),
        Err(e) => Err(e@),
    }
}

/// Whether two texts hold the same characters, decided on their UTF-8 bytes.
pub fn text_eq(a: &str, b: &str) -> (same: bool)
    ensures
        same == (a@ == b@),
{
    let x = a.as_bytes();
    let y = b.as_bytes();
    proof {
        encode_utf8_decode_utf8(a@);
        encode_utf8_decode_utf8(b@);
    }
    if x.len() != y.len() {
        return false;
    }
    let mut i: usize = 0;
    while i < x.len()
        invariant
            i <= x.len(),
            x.len() == y.len(),
            x@ == vstd::utf8::encode_utf8(a@),
            y@ == vstd::utf8::encode_utf8(b@),
            forall|k: int| 0 <= k < i ==> x@[k] == y@[k],
        decreases x.len() - i,
    {
        if x[i] != y[i] {
            return false;
        }
        i = i + 1;
    }
    assert(x@ =~= y@);
    true
}

// ---------------------------------------------------------------------------
// Credential hasher
// ---------------------------------------------------------------------------

/// Number of characters in a generated salt: 16 bytes in unpadded base64.
pub const SALT_LEN: usize = 22;

/// True for the characters of the standard base64 alphabet.
pub open spec fn is_b64_char(c: char) -> bool {
    ('A' <= c && c <= 'Z') || ('a' <= c && c <= 'z') || ('0' <= c && c <= '9') || c == '+' || c
        == '/'
}

/// True for the characters that can end the base64 text of 16 bytes: those
/// whose four low bits, which carry no data, are zero.
pub open spec fn is_b64_end(c: char) -> bool {
    c == 'A' || c == 'Q' || c == 'g' || c == 'w'
}

/// True for the unpadded base64 text of some 16 bytes.
pub open spec fn is_salt_text(text: Seq<char>) -> bool {
    &&& text.len() == SALT_LEN
    &&& forall|i: int| 0 <= i < text.len() ==> is_b64_char(#[trigger] text[i])
    &&& is_b64_end(text[SALT_LEN - 1])
}

/// A salt, held as its text.
#[derive(Debug, PartialEq)]
pub struct Salt {
    text: String,
}

impl View for Salt {
    type V = Seq<char>;

    closed spec fn view(&self) -> Seq<char> {
        self.text@
    }
}

impl Salt {
    /// A salt is the unpadded base64 text of 16 bytes.
    pub open spec fn wf(&self) -> bool {
        is_salt_text(self@)
    }

    /// Takes `text` as a salt if it is the unpadded base64 text of 16 bytes.
    pub fn parse(text: &str) -> (salt: Option<Salt>)
        ensures
            match salt {
                Some(s) => s.wf() && s@ == text@,
                None => !is_salt_text(text@),
            },
    {
        if text.unicode_len() != SALT_LEN {
            return None;
        }
        let mut i: usize = 0;
        while i < SALT_LEN
            invariant
                i <= SALT_LEN,
                text@.len() == SALT_LEN,
                forall|k: int| 0 <= k < i ==> is_b64_char(#[trigger] text@[k]),
            decreases SALT_LEN - i,
        {
            let c = text.get_char(i);
            let fits = ('A' <= c && c <= 'Z') || ('a' <= c && c <= 'z') || ('0' <= c && c <= '9')
                || c == '+' || c == '/';
            if !fits {
                return None;
            }
            i = i + 1;
        }
        let last = text.get_char(SALT_LEN - 1);
        if last == 'A' || last == 'Q' || last == 'g' || last == 'w' {
            Some(Salt { text: String::from_str(text) })
        } else {
            None
        }
    }

    /// The text of the salt.
    pub fn as_str(&self) -> (text: &str)
        ensures
            text@ == self@,
    {
        self.text.as_str()
    }
}

/// What every derived record starts with: the algorithm and its
/// parameters.
pub const RECORD_PREFIX: &'static str = "$pbkdf2-sha256$i=600000,l=32$";

/// Number of characters in `RECORD_PREFIX`.
pub const RECORD_PREFIX_LEN: usize = 29;

/// Number of characters that the 32 bytes of a derived key encode to.
pub const KEY_TEXT_LEN: usize = 43;

/// True for a record of the form that is derived under `salt`: the prefix,
/// the salt's text, a `$`, and the key in base64.
pub open spec fn is_record_under(record: Seq<char>, salt: Seq<char>) -> bool {
    &&& record.len() == RECORD_PREFIX_LEN + salt.len() + 1 + KEY_TEXT_LEN
    &&& record.subrange(0, RECORD_PREFIX_LEN as int) == RECORD_PREFIX@
    &&& record.subrange(RECORD_PREFIX_LEN as int, RECORD_PREFIX_LEN + salt.len()) == salt
    &&& record[RECORD_PREFIX_LEN + salt.len()] == '$'
    &&& forall|i: int|
        RECORD_PREFIX_LEN + salt.len() < i < record.len() ==> is_b64_char(#[trigger] record[i])
}

/// The prefix has the length that `RECORD_PREFIX_LEN` names.
pub proof fn record_prefix_is_measured()
    ensures
        RECORD_PREFIX@.len() == RECORD_PREFIX_LEN,
{
    reveal_strlit("$pbkdf2-sha256$i=600000,l=32$");
}

/// Records under different salts differ: the salt is part of the record.
pub proof fn records_under_different_salts_differ(
    first: Seq<char>,
    first_salt: Seq<char>,
    second: Seq<char>,
    second_salt: Seq<char>,
)
    requires
        is_record_under(first, first_salt),
        is_record_under(second, second_salt),
        first_salt != second_salt,
    ensures
        first != second,
{
}

/// The PHC string that `Pbkdf2.hash_password` derives from `password` under
/// the salt `salt`, `None` where it reports an error.
pub uninterp spec fn pbkdf2_derivation(password: Seq<char>, salt: Seq<char>) -> Option<Seq<char>>;

/// Whether `PasswordHash::new` accepts `record` as a PHC string.
pub uninterp spec fn phc_parses(record: Seq<char>) -> bool;

/// Whether `record` parses as a PHC string and `Pbkdf2.verify_password`
/// accepts `password` for it.
pub uninterp spec fn pbkdf2_accepts(record: Seq<char>, password: Seq<char>) -> bool;

/// Calls `SaltString::generate` on the operating system's random source and
/// keeps the text. The salt is random; what holds of every outcome is its
/// form: the 22 base64 characters that 16 bytes encode to.
#[verifier::external_body]
fn fresh_salt() -> (salt: Salt)
    ensures
        salt.wf(),
{
    Salt { text: SaltString::generate(&mut OsRng).as_str().to_string() }
}

/// Calls `Pbkdf2.hash_password` under `salt`, read back by
/// `SaltString::from_b64`, and renders the outcome as a PHC string. The
/// string is a function of password and salt. Under the text of 16 bytes the
/// salt decodes and the default parameters are in range, so a string is
/// derived. A derived string is rendered as `$pbkdf2-sha256`, the default
/// parameters `$i=600000,l=32`, `$` and the salt's text, `$` and the 32-byte
/// key in unpadded base64; and, as the `pbkdf2` crate documents, it parses
/// again and verifies against the password it was derived from.
#[verifier::external_body]
fn derive_record(password: &str, salt: &Salt) -> (record: Option<String>)
    ensures
        text_view(record) == pbkdf2_derivation(password@, salt@),
        salt.wf() ==> record is Some,
        record matches Some(h) ==> is_record_under(h@, salt@),
        record matches Some(h) ==> phc_parses(h@) && pbkdf2_accepts(h@, password@),
{
    match SaltString::from_b64(salt.text.as_str()) {
        Ok(salt) => match Pbkdf2.hash_password(password.as_bytes(), &salt) {
            Ok(hash) => Some(hash.to_string()),
            Err(_) => None,
        },
        Err(_) => None,
    }
}

/// Calls `PasswordHash::new` and tells whether it accepted `record`.
#[verifier::external_body]
fn record_parses(record: &str) -> (ok: bool)
    ensures
        ok == phc_parses(record@),
{
    PasswordHash::new(record).is_ok()
}

/// Calls `Pbkdf2.verify_password` on `record` as `PasswordHash::new` parses
/// it. Every error of either call counts as a mismatch.
#[verifier::external_body]
fn record_accepts(record: &str, password: &str) -> (ok: bool)
    ensures
        ok == pbkdf2_accepts(record@, password@),
{
    match PasswordHash::new(record) {
        Ok(parsed) => Pbkdf2.verify_password(password.as_bytes(), &parsed).is_ok(),
        Err(_) => false,
    }
}

/// What verifying `password` against the stored `record` yields: a format
/// failure for a record that does not parse, else whether the password fits.
pub open spec fn verification(record: Seq<char>, password: Seq<char>) -> Result<bool, ErrorShape> {
    if phc_parses(record) {
        Ok(pbkdf2_accepts(record, password))
    } else {
        Err(ErrorShape::InternalServerError)
    }
}

/// What becomes of a derived record: it is handed out if it was derived at
/// all and parses as a PHC string.
pub open spec fn sealed(derived: Option<Seq<char>>) -> Result<Seq<char>, ErrorShape> {
    match derived {
        Some(h) => if phc_parses(h) {
            Ok(h)
        } else {
            Err(ErrorShape::InternalServerError)
        },
        None => Err(ErrorShape::InternalServerError),
    }
}

/// The view of an optional text.
pub open spec fn text_view(text: Option<String>) -> Option<Seq<char>> {
    match text {
        Some(t) => Some(t@),
        None => None,
    }
}

/// Checks a freshly derived record before it is stored: a derivation that
/// failed, or a record that does not parse, is an internal error.
pub fn seal_record(derived: Option<String>) -> (r: Result<String, ServiceError>)
    ensures
        result_view(r) == sealed(text_view(derived)),
{
    match derived {
        Some(record) => {
            if record_parses(record.as_str()) {
                Ok(record)
            } else {
                Err(ServiceError::InternalServerError)
            }
        },
        None => Err(ServiceError::InternalServerError),
    }
}

/// Hashes `password` under the salt `salt` into a self-describing PHC
/// record: the one that PBKDF2 derives from the two. It parses and verifies
/// against `password`.
pub fn hash_with_salt(password: &str, salt: &Salt) -> (r: Result<String, ServiceError>)
    requires
        salt.wf(),
    ensures
        r is Ok,
        r matches Ok(h) ==> Some(h@) == pbkdf2_derivation(password@, salt@),
        r matches Ok(h) ==> is_record_under(h@, salt@),
        r matches Ok(h) ==> verification(h@, password@) == Ok::<bool, ErrorShape>(true),
{
    let derived = derive_record(password, salt);
    seal_record(derived)
}

/// Hashes `password` under a fresh random salt into a self-describing PHC
/// record. It never fails, and whatever salt was drawn, the record is the one
/// derived under that salt: it parses and verifies against `password`.
pub fn hash_password(password: &str) -> (r: Result<String, ServiceError>)
    ensures
        r is Ok,
        r matches Ok(h) ==> verification(h@, password@) == Ok::<bool, ErrorShape>(true),
        r matches Ok(h) ==> exists|salt: Seq<char>|
            {
                &&& is_salt_text(salt)
                &&& Some(h@) == #[trigger] pbkdf2_derivation(password@, salt)
                &&& is_record_under(h@, salt)
            },
{
    let salt = fresh_salt();
    hash_with_salt(password, &salt)
}

/// A record that verifies against one password answers every other
/// password too: with a plain yes or no, never with a format failure.
pub proof fn every_password_gets_an_answer(
    record: Seq<char>,
    password: Seq<char>,
    other: Seq<char>,
)
    requires
        verification(record, password) == Ok::<bool, ErrorShape>(true),
    ensures
        verification(record, other) == Ok::<bool, ErrorShape>(pbkdf2_accepts(record, other)),
{
}

/// Verifies `password` against the stored record `hash`. A wrong password is
/// `Ok(false)`; only a record that does not parse is an error.
pub fn verify(hash: &str, password: &str) -> (r: Result<bool, ServiceError>)
    ensures
        err_view(r) == verification(hash@, password@),
{
    if record_parses(hash) {
        Ok(record_accepts(hash, password))
    } else {
        Err(ServiceError::InternalServerError)
    }
}

// ---------------------------------------------------------------------------
// Token generator
// ---------------------------------------------------------------------------

/// The thread-local generator of the `rand` crate.
#[verifier::external_type_specification]
#[verifier::external_body]
pub struct ExThreadRng(ThreadRng);

/// `rand::thread_rng` hands out the calling thread's generator.
pub assume_specification[ rand::thread_rng ]() -> (rng: ThreadRng);

/// Calls `Rng::gen_range` on `0..bound`, which samples the range uniformly
/// and panics on an empty one. The index is random: only its range is
/// claimed.
#[verifier::external_body]
fn random_index(rng: &mut ThreadRng, bound: usize) -> (index: usize)
    requires
        bound > 0,
    ensures
        index < bound,
{
    rng.gen_range(0..bound)
}

/// The alphabet has `CHARSET_LEN` characters, each a letter or a digit.
pub proof fn charset_is_alphanumeric()
    ensures
        CHARSET@.len() == CHARSET_LEN,
        vstd::string::is_ascii(CHARSET),
        forall|i: int| 0 <= i < CHARSET_LEN ==> is_token_char(#[trigger] CHARSET@[i]),
{
    reveal_strlit("ABCDEFGHIJKLMNOPQRSTUVWXYZabcdefghijklmnopqrstuvwxyz0123456789");
}

/// The token that a run of drawn indices stands for: character `i` is the
/// alphabet's character at the `i`-th index.
pub open spec fn token_of(indices: Seq<usize>) -> Seq<char> {
    Seq::new(indices.len(), |i: int| CHARSET@[indices[i] as int])
}

/// Whether `indices` is a full draw: one index into the alphabet for each
/// character of a token.
pub open spec fn is_draw(indices: Seq<usize>) -> bool {
    &&& indices.len() == API_TOKEN_LEN
    &&& forall|i: int| 0 <= i < indices.len() ==> (#[trigger] indices[i]) < CHARSET_LEN
}

/// Spells the token that the drawn indices stand for.
pub fn token_from_indices(indices: &Vec<usize>) -> (token: String)
    requires
        forall|i: int| 0 <= i < indices@.len() ==> (#[trigger] indices@[i]) < CHARSET_LEN,
    ensures
        token@ == token_of(indices@),
{
    let mut token = String::new();
    let mut n: usize = 0;
    proof {
        charset_is_alphanumeric();
    }
    while n < indices.len()
        invariant
            n <= indices.len(),
            token@ == token_of(indices@.take(n as int)),
            CHARSET@.len() == CHARSET_LEN,
            vstd::string::is_ascii(CHARSET),
            forall|i: int| 0 <= i < indices@.len() ==> (#[trigger] indices@[i]) < CHARSET_LEN,
        decreases indices.len() - n,
    {
        let idx = indices[n];
        let picked = CHARSET.substring_ascii(idx, idx + 1);
        token.append(picked);
        n = n + 1;
        assert(token@ =~= token_of(indices@.take(n as int)));
    }
    assert(indices@.take(n as int) =~= indices@);
    token
}

/// A full draw spells a token of the declared length and alphabet.
pub proof fn draw_spells_a_token(indices: Seq<usize>)
    requires
        is_draw(indices),
    ensures
        is_api_token(token_of(indices)),
{
    charset_is_alphanumeric();
}

/// Generates an API token: draws `API_TOKEN_LEN` uniform indices into the
/// alphabet from the thread's secure generator and spells the token they
/// stand for.
pub fn generate_api_token() -> (token: String)
    ensures
        is_api_token(token@),
        exists|indices: Seq<usize>| is_draw(indices) && token@ == #[trigger] token_of(indices),
{
    let mut rng = rand::thread_rng();
    let mut indices: Vec<usize> = Vec::new();
    while indices.len() < API_TOKEN_LEN
        invariant
            indices.len() <= API_TOKEN_LEN,
            forall|i: int| 0 <= i < indices@.len() ==> (#[trigger] indices@[i]) < CHARSET_LEN,
        decreases API_TOKEN_LEN - indices.len(),
    {
        let idx = random_index(&mut rng, CHARSET_LEN);
        indices.push(idx);
    }
    proof {
        draw_spells_a_token(indices@);
    }
    token_from_indices(&indices)
}

// ---------------------------------------------------------------------------
// Credential decoding
// ---------------------------------------------------------------------------

/// The bytes that `base64::decode` yields for `text`, `None` where it
/// reports an error.
pub uninterp spec fn base64_decoding(text: Seq<char>) -> Option<Seq<u8>>;

/// The view of optional bytes.
pub open spec fn bytes_view(bytes: Option<Vec<u8>>) -> Option<Seq<u8>> {
    match bytes {
        Some(b) => Some(b@),
        None => None,
    }
}

/// Calls `base64::decode`, the standard alphabet with padding. `None` stands
/// for its error.
#[verifier::external_body]
fn base64_decode(text: &str) -> (bytes: Option<Vec<u8>>)
    ensures
        bytes_view(bytes) == base64_decoding(text@),
{
    base64::decode(text).ok()
}

/// Calls `std::str::from_utf8`, which accepts exactly the valid UTF-8 byte
/// sequences and reads the bytes as the text they encode.
#[verifier::external_body]
pub(crate) fn text_from_utf8<'a>(bytes: &'a [u8]) -> (text: Option<&'a str>)
    ensures
        text is Some <==> valid_utf8(bytes@),
        text matches Some(t) ==> t@ == decode_utf8(bytes@),
{
    std::str::from_utf8(bytes).ok()
}

/// The token value that decoded credential bytes stand for.
pub open spec fn token_of_bytes(decoded: Option<Seq<u8>>) -> Result<Seq<char>, AuthError> {
    match decoded {
        Some(bytes) => if valid_utf8(bytes) {
            Ok(decode_utf8(bytes))
        } else {
            Err(AuthError::Malformed)
        },
        None => Err(AuthError::Malformed),
    }
}

/// The token value that a presented credential stands for.
pub open spec fn decoded_token(credentials: Seq<char>) -> Result<Seq<char>, AuthError> {
    token_of_bytes(base64_decoding(credentials))
}

/// Turns the outcome of the base64 step into a token value: bytes that are
/// missing or not UTF-8 make the credential malformed.
pub fn token_from_bytes(decoded: Option<Vec<u8>>) -> (r: Result<String, AuthError>)
    ensures
        ok_view(r) == token_of_bytes(bytes_view(decoded)),
{
    match decoded {
        Some(bytes) => match text_from_utf8(bytes.as_slice()) {
            Some(token) => Ok(String::from_str(token)),
            None => Err(AuthError::Malformed),
        },
        None => Err(AuthError::Malformed),
    }
}

/// Decodes a presented bearer credential from its base64 wire form into the
/// raw token value.
pub fn decode_token(credentials: &str) -> (r: Result<String, AuthError>)
    ensures
        ok_view(r) == decoded_token(credentials@),
{
    token_from_bytes(base64_decode(credentials))
}

} // verus!
