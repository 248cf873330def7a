//! Identifiers, the clock, password hashes and the token codec.
//!
//! What an outside crate computes is reached through the functions of this
//! module that are marked `external_body`. Verus takes the contract of such
//! a function on trust; the comment above each names the call that it makes
//! and what is claimed of it.

use vstd::prelude::*;
use crate::json::{json_from_value, Json};
use crate::models::Timestamp;

verus! {

/// The name of the claim that carries the session identifier.
pub const SESSION_CLAIM: &'static str = "session_id";

/// The name of the claim that names the audience of a token.
pub const AUDIENCE_CLAIM: &'static str = "aud";

// ---------------------------------------------------------------------------
// Identifiers
// ---------------------------------------------------------------------------

/// `id` has the version and variant bits of a random (version 4) UUID.
pub open spec fn is_v4(id: u128) -> bool {
    (id >> 76) & 0xf == 4 && (id >> 62) & 0x3 == 2
}

/// The lower-case hexadecimal digit for a value below 16.
pub open spec fn hex_digit(nibble: u128) -> char {
    "0123456789abcdef"@[nibble as int]
}

/// The hyphenated lower-case text of a UUID: 32 hexadecimal digits, most
/// significant first, in groups of 8, 4, 4, 4 and 12.
pub open spec fn uuid_text(id: u128) -> Seq<char> {
    Seq::new(
        36,
        |i: int|
            if i == 8 || i == 13 || i == 18 || i == 23 {
                '-'
            } else {
                let hyphens: int = if i > 23 {
                    4
                } else if i > 18 {
                    3
                } else if i > 13 {
                    2
                } else if i > 8 {
                    1
                } else {
                    0
                };
                hex_digit((id >> ((4 * (31 - (i - hyphens))) as u128)) & 0xf)
            },
    )
}

/// What `uuid::Uuid::parse_str` makes of a text: the value of the UUID, or
/// `None` where the text is not one.
pub uninterp spec fn parsed_uuid(text: Seq<char>) -> Option<u128>;

/// Calls `uuid::Uuid::new_v4`, and hands out the value of the UUID.
/// Trusted: the result carries the version and variant bits that `new_v4`
/// sets; the other 122 bits are random.
#[verifier::external_body]
pub fn generate_uuid() -> (id: u128)
    ensures
        is_v4(id),
{
    uuid::Uuid::new_v4().as_u128()
}

/// Calls `uuid::Uuid::parse_str`. Trusted: the result is a function of the
/// text alone.
#[verifier::external_body]
fn uuid_parse(text: &str) -> (id: Option<u128>)
    ensures
        id == parsed_uuid(text@),
{
    match uuid::Uuid::parse_str(text) {
        Ok(uuid) => Some(uuid.as_u128()),
        Err(_) => None,
    }
}

/// Calls `to_string` on the `uuid::Uuid` of value `id`. Trusted: the text is
/// the hyphenated lower-case form, which is one of the forms that
/// `uuid::Uuid::parse_str` reads, and it reads the same value back.
#[verifier::external_body]
fn uuid_to_string(id: u128) -> (text: String)
    ensures
        text@ == uuid_text(id),
        parsed_uuid(text@) == Some(id),
{
    uuid::Uuid::from_u128(id).to_string()
}

/// Reads an identifier from its text.
pub fn parse_uuid(text: &str) -> (id: Option<u128>)
    ensures
        id == parsed_uuid(text@),
{
    uuid_parse(text)
}

/// The hyphenated text of an identifier, from which [`parse_uuid`] reads
/// the identifier back.
pub fn uuid_string(id: u128) -> (text: String)
    ensures
        text@ == uuid_text(id),
        parsed_uuid(text@) == Some(id),
{
    uuid_to_string(id)
}

// ---------------------------------------------------------------------------
// The clock
// ---------------------------------------------------------------------------

/// What `chrono::NaiveDateTime::checked_add_signed` makes of a start and a
/// number of seconds: the later instant, or `None` where chrono has none.
pub uninterp spec fn seconds_later(start: Timestamp, seconds: i64) -> Option<Timestamp>;

/// Calls `chrono::Local::now` and takes the local date and time of the
/// reading, as the seconds and nanoseconds since 1970-01-01 00:00:00 of that
/// local time. Trusted: the reading is never inside a leap second, so its
/// nanoseconds stay below one second. chrono does not return where the
/// system clock stands before 1970.
#[verifier::external_body]
pub fn now() -> (reading: Timestamp)
    ensures
        reading.nanos < 1_000_000_000,
{
    let local = chrono::Local::now().naive_local().and_utc();
    Timestamp { secs: local.timestamp(), nanos: local.timestamp_subsec_nanos() }
}

/// Calls `chrono::NaiveDateTime::checked_add_signed` with a whole number of
/// seconds. Trusted: the result is a function of the arguments alone, and
/// from a start outside a leap second it is, where there is one, exactly
/// `seconds` later.
#[verifier::external_body]
fn chrono_add_seconds(start: Timestamp, seconds: i64) -> (end: Option<Timestamp>)
    ensures
        end == seconds_later(start, seconds),
        end matches Some(t) ==> start.nanos < 1_000_000_000 ==> t.secs == start.secs + seconds
            && t.nanos == start.nanos,
{
    let base = chrono::DateTime::from_timestamp(start.secs, start.nanos)?.naive_utc();
    let sum = base.checked_add_signed(chrono::TimeDelta::try_seconds(seconds)?)?.and_utc();
    Some(Timestamp { secs: sum.timestamp(), nanos: sum.timestamp_subsec_nanos() })
}

/// What `to_string` makes of the `chrono::NaiveDateTime` for a timestamp:
/// date and time of day, or `None` where chrono has no such date.
pub uninterp spec fn timestamp_text(at: Timestamp) -> Option<Seq<char>>;

/// Calls `chrono::DateTime::from_timestamp` and `to_string` on the date
/// and time without zone that it gives. Trusted: the result is a function
/// of the timestamp alone.
#[verifier::external_body]
fn chrono_text(at: Timestamp) -> (text: Option<String>)
    ensures
        match text {
            Some(t) => timestamp_text(at) == Some(t@),
            None => timestamp_text(at) is None,
        },
{
    Some(chrono::DateTime::from_timestamp(at.secs, at.nanos)?.naive_utc().to_string())
}

/// The date and time of a timestamp as text.
pub fn timestamp_string(at: Timestamp) -> (text: Option<String>)
    ensures
        match text {
            Some(t) => timestamp_text(at) == Some(t@),
            None => timestamp_text(at) is None,
        },
{
    chrono_text(at)
}

impl Timestamp {
    /// The instant `seconds` after `self`, or `None` where the calendar has
    /// no such instant.
    pub fn plus_seconds(self, seconds: i64) -> (end: Option<Timestamp>)
        ensures
            end == seconds_later(self, seconds),
            end matches Some(t) ==> self.nanos < 1_000_000_000 ==> t.secs == self.secs + seconds
                && t.nanos == self.nanos,
    {
        chrono_add_seconds(self, seconds)
    }
}

// ---------------------------------------------------------------------------
// Password hashes
// ---------------------------------------------------------------------------

/// Why a password could not be hashed or checked.
#[derive(Debug, Clone, Copy, PartialEq, Eq, Structural)]
pub enum PasswordError {
    /// No hash could be computed.
    HashingFailed,
    /// The stored text is not a bcrypt hash.
    MalformedHash,
}

/// The error of `bcrypt`, carried from its calls to where it is turned into
/// a [`PasswordError`]. Nothing is read in it.
#[verifier::external_type_specification]
#[verifier::external_body]
pub struct ExBcryptError(bcrypt::BcryptError);

/// What `bcrypt::verify` makes of a password and a stored hash: whether the
/// password is the one that was hashed, or `None` where the stored text is
/// not a bcrypt hash.
pub uninterp spec fn bcrypt_matches(password: Seq<char>, hash: Seq<char>) -> Option<bool>;

/// Calls `bcrypt::hash` with `bcrypt::DEFAULT_COST`. Trusted: a hash that
/// comes back is one that `bcrypt::verify` accepts for the same password.
/// The salt is random, so the hash is no function of the password.
#[verifier::external_body]
fn bcrypt_hash(password: &str) -> (hash: Result<String, bcrypt::BcryptError>)
    ensures
        hash matches Ok(h) ==> bcrypt_matches(password@, h@) == Some(true),
{
    bcrypt::hash(password, bcrypt::DEFAULT_COST)
}

/// Calls `bcrypt::verify`. Trusted: the result is a function of the
/// password and the stored hash alone.
#[verifier::external_body]
fn bcrypt_verify(password: &str, hash: &str) -> (outcome: Result<bool, bcrypt::BcryptError>)
    ensures
        match outcome {
            Ok(same) => bcrypt_matches(password@, hash@) == Some(same),
            Err(_) => bcrypt_matches(password@, hash@) is None,
        },
{
    bcrypt::verify(password, hash)
}

/// A salted hash of `password`, which [`verify_password`] accepts for it.
pub fn hash_password(password: &str) -> (hash: Result<String, PasswordError>)
    ensures
        match hash {
            Ok(h) => bcrypt_matches(password@, h@) == Some(true),
            Err(e) => e == PasswordError::HashingFailed,
        },
{
    match bcrypt_hash(password) {
        Ok(h) => Ok(h),
        Err(_) => Err(PasswordError::HashingFailed),
    }
}

/// Whether `password` is the one from which `hash` was made.
pub fn verify_password(password: &str, hash: &str) -> (outcome: Result<bool, PasswordError>)
    ensures
        outcome == match bcrypt_matches(password@, hash@) {
            Some(same) => Ok::<bool, PasswordError>(same),
            None => Err(PasswordError::MalformedHash),
        },
{
    match bcrypt_verify(password, hash) {
        Ok(same) => Ok(same),
        Err(_) => Err(PasswordError::MalformedHash),
    }
}

// ---------------------------------------------------------------------------
// The token codec
// ---------------------------------------------------------------------------

/// Why a token could not be made or read.
#[derive(Debug, Clone, PartialEq, Eq)]
pub enum TokenError {
    /// The codec refused; `reason` is its message.
    Rejected { reason: String },
    /// The claims of the token hold no text under `session_id`.
    MissingSessionId,
    /// The text under `session_id` is not an identifier.
    InvalidSessionId,
}

/// The words for [`TokenError::MissingSessionId`].
pub const MISSING_SESSION_ID: &'static str = "token carries no session identifier";

/// The words for [`TokenError::InvalidSessionId`].
pub const INVALID_SESSION_ID: &'static str = "session identifier is not a UUID";

impl TokenError {
    /// The error in words: the codec's own where it refused.
    pub open spec fn words(self) -> Seq<char> {
        match self {
            TokenError::Rejected { reason } => reason@,
            TokenError::MissingSessionId => MISSING_SESSION_ID@,
            TokenError::InvalidSessionId => INVALID_SESSION_ID@,
        }
    }

    /// The error in words.
    pub fn message(self) -> (text: String)
        ensures
            text@ == self.words(),
    {
        match self {
            TokenError::Rejected { reason } => reason,
            TokenError::MissingSessionId => MISSING_SESSION_ID.to_owned(),
            TokenError::InvalidSessionId => INVALID_SESSION_ID.to_owned(),
        }
    }
}

/// The error of `jsonwebtoken`, carried from its calls to where it is
/// turned into a [`TokenError`]. Only its words are taken from it.
#[verifier::external_type_specification]
#[verifier::external_body]
pub struct ExJwtError(jsonwebtoken::errors::Error);

/// What `jsonwebtoken::encode` makes, with the default header (HS256), of
/// claims that hold the one text `value` under `claim`, signed with
/// `secret`: the token, or `None` where it refuses.
pub uninterp spec fn jwt_encoded(claim: Seq<char>, value: Seq<char>, secret: Seq<u8>) -> Option<
    Seq<char>,
>;

/// What `jsonwebtoken::decode` reads as the claims of a token when the
/// signature and the expiry are not checked and no claim is required: the
/// claims, or `None` where it refuses the token.
pub uninterp spec fn jwt_claims(token: Seq<char>, secret: Seq<u8>) -> Option<Json>;

/// The claims of a token hold the text `value` under `claim`.
pub open spec fn carries_claim(claims: Option<Json>, claim: Seq<char>, value: Seq<char>) -> bool {
    &&& claims matches Some(document)
    &&& document.field(claim) matches Some(found)
    &&& found.text() == Some(value)
}

/// Calls `jsonwebtoken::encode` with `Header::default()`, claims that hold
/// `value` under `claim` and nothing else, and `EncodingKey::from_secret`.
/// Trusted: the result is a function of the three arguments alone. With
/// this header and a secret as the key the call has no failing path, so a
/// token always comes back. Read without the checks of signature and
/// expiry, the token gives the claim back, unless the claim is the
/// audience, which `jsonwebtoken::decode` refuses where none is expected.
#[verifier::external_body]
fn jwt_encode(claim: &str, value: &str, secret: &[u8]) -> (token: Result<
    String,
    jsonwebtoken::errors::Error,
>)
    ensures
        token is Ok,
        token matches Ok(t) ==> jwt_encoded(claim@, value@, secret@) == Some(t@),
        token matches Ok(t) ==> claim@ != AUDIENCE_CLAIM@ ==> carries_claim(
            jwt_claims(t@, secret@),
            claim@,
            value@,
        ),
{
    let claims = std::collections::BTreeMap::from([(claim, value)]);
    let key = jsonwebtoken::EncodingKey::from_secret(secret);
    jsonwebtoken::encode(&jsonwebtoken::Header::default(), &claims, &key)
}

/// Calls `jsonwebtoken::decode` with `DecodingKey::from_secret` and a
/// validation for HS256 in which the signature check and the expiry check
/// are switched off and no claim is required. Trusted: the result is a
/// function of the two arguments alone (with these settings the call reads
/// no clock).
#[verifier::external_body]
fn jwt_decode_unchecked(token: &str, secret: &[u8]) -> (claims: Result<
    Json,
    jsonwebtoken::errors::Error,
>)
    ensures
        match claims {
            Ok(c) => jwt_claims(token@, secret@) == Some(c),
            Err(_) => jwt_claims(token@, secret@) is None,
        },
{
    let mut validation = jsonwebtoken::Validation::new(jsonwebtoken::Algorithm::HS256);
    validation.insecure_disable_signature_validation();
    validation.validate_exp = false;
    validation.required_spec_claims = std::collections::HashSet::new();
    let key = jsonwebtoken::DecodingKey::from_secret(secret);
    let data = jsonwebtoken::decode::<serde_json::Value>(token, &key, &validation)?;
    Ok(json_from_value(&data.claims))
}

/// Calls `to_string` on an error of `jsonwebtoken`. Nothing is claimed of
/// the text.
#[verifier::external_body]
fn jwt_error_text(error: &jsonwebtoken::errors::Error) -> (text: String) {
    error.to_string()
}

/// The token that stands for `session_id` under `secret`, if the codec
/// makes one.
pub open spec fn token_for(session_id: u128, secret: Seq<u8>) -> Option<Seq<char>> {
    jwt_encoded(SESSION_CLAIM@, uuid_text(session_id), secret)
}

/// The session identifier that a set of claims names: the text under
/// `session_id`, read as an identifier.
pub open spec fn claimed_session_id(claims: Json) -> Option<u128> {
    match claims.field(SESSION_CLAIM@) {
        Some(value) => match value.text() {
            Some(text) => parsed_uuid(text),
            None => None,
        },
        None => None,
    }
}

/// The session identifier that a token names, whoever signed it.
pub open spec fn decoded_session_id(token: Seq<char>, secret: Seq<u8>) -> Option<u128> {
    match jwt_claims(token, secret) {
        Some(claims) => claimed_session_id(claims),
        None => None,
    }
}

/// Makes the signed token that carries `session_id`. A token is always
/// made, and [`decode_jwt`] reads `session_id` back from it.
pub fn generate_jwt(session_id: &u128, secret: &[u8]) -> (token: Result<String, TokenError>)
    ensures
        token is Ok,
        token matches Ok(t) ==> token_for(*session_id, secret@) == Some(t@),
        token matches Ok(t) ==> decoded_session_id(t@, secret@) == Some(*session_id),
{
    let text = uuid_to_string(*session_id);
    proof {
        reveal_strlit("session_id");
        reveal_strlit("aud");
        assert(SESSION_CLAIM@.len() != AUDIENCE_CLAIM@.len());
    }
    match jwt_encode(SESSION_CLAIM, text.as_str(), secret) {
        Ok(t) => Ok(t),
        Err(e) => Err(TokenError::Rejected { reason: jwt_error_text(&e) }),
    }
}

/// What is wrong with a set of claims that names no session: the text
/// under `session_id` is no identifier, or there is no such text.
pub open spec fn claim_error(claims: Json) -> TokenError {
    if (claims.field(SESSION_CLAIM@) matches Some(value) && value.text() is Some) {
        TokenError::InvalidSessionId
    } else {
        TokenError::MissingSessionId
    }
}

/// Reads the session identifier out of a set of claims.
pub fn session_id_from_claims(claims: &Json) -> (id: Result<u128, TokenError>)
    ensures
        match id {
            Ok(found) => claimed_session_id(*claims) == Some(found),
            Err(e) => claimed_session_id(*claims) is None && e == claim_error(*claims),
        },
{
    match claims.get(SESSION_CLAIM) {
        Some(value) => match value.as_str() {
            Some(text) => match uuid_parse(text) {
                Some(found) => Ok(found),
                None => Err(TokenError::InvalidSessionId),
            },
            None => Err(TokenError::MissingSessionId),
        },
        None => Err(TokenError::MissingSessionId),
    }
}

/// Reads the session identifier out of a token. Neither the signature nor
/// an expiry claim is checked here: a token is trusted only after the
/// session that it names was found and compared.
pub fn decode_jwt(token: &str, secret: &[u8]) -> (id: Result<u128, TokenError>)
    ensures
        match id {
            Ok(found) => decoded_session_id(token@, secret@) == Some(found),
            Err(e) => decoded_session_id(token@, secret@) is None && match jwt_claims(
                token@,
                secret@,
            ) {
                Some(claims) => e == claim_error(claims),
                None => e is Rejected,
            },
        },
{
    match jwt_decode_unchecked(token, secret) {
        Ok(claims) => session_id_from_claims(&claims),
        Err(e) => Err(TokenError::Rejected { reason: jwt_error_text(&e) }),
    }
}

} // verus!
