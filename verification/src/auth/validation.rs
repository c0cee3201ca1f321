//! Passwords, token claims and the caller's identity.
use vstd::prelude::*;
use vstd::utf8::encode_utf8;
use axum::http::HeaderMap;
use crate::auth::types::Claims;
use crate::headers::{bearer_token, bearer_token_of};
use crate::ids::{hyphenated_value, lemma_uuid_text_parses_back, parse_uuid, uuid_parse, uuid_text};
use crate::status::StatusCode;
use argon2::{Argon2, PasswordHash, PasswordHasher, PasswordVerifier};
use argon2::password_hash::SaltString;
use argon2::password_hash::rand_core::OsRng;

verus! {

/// How long a token stays valid, in seconds.
pub const TOKEN_LIFETIME_SECS: i64 = 3600;

/// What Argon2 (default parameters) answers when `password` is checked
/// against the PHC string `hash`: none when the string does not parse, else
/// whether the password matches.
pub uninterp spec fn argon2_verify_outcome(password: Seq<char>, hash: Seq<char>) -> Option<bool>;

/// The PHC string that Argon2 (default parameters) makes of `password` with
/// the Base64 salt `salt`, or none when the salt or the hashing is refused.
pub uninterp spec fn argon2_hash_of(password: Seq<char>, salt: Seq<char>) -> Option<Seq<char>>;

/// The longest password, in UTF-8 bytes, that Argon2 accepts.
pub const MAX_PASSWORD_BYTES: u64 = 0xFFFF_FFFF;

/// Argon2 hashes the password: it has at most `MAX_PASSWORD_BYTES` bytes.
pub open spec fn password_fits(password: Seq<char>) -> bool {
    encode_utf8(password).len() <= MAX_PASSWORD_BYTES
}

/// A character of unpadded standard Base64, the "B64" of PHC strings.
pub open spec fn is_b64_char(c: char) -> bool {
    ('A' <= c && c <= 'Z') || ('a' <= c && c <= 'z') || ('0' <= c && c <= '9') || c == '+' || c
        == '/'
}

/// The text of a 16-byte salt in unpadded Base64: 22 characters, the last of
/// which carries only two bits (so its value is a multiple of 16).
pub open spec fn is_generated_salt(s: Seq<char>) -> bool {
    &&& s.len() == 22
    &&& forall|i: int| 0 <= i < 22 ==> is_b64_char(#[trigger] s[i])
    &&& (s[21] == 'A' || s[21] == 'Q' || s[21] == 'g' || s[21] == 'w')
}

/// Calls `SaltString::generate` with the operating system's generator and
/// returns the salt's Base64 text.  Claimed: the salt is 16 random bytes
/// written in unpadded Base64 (`is_generated_salt`); which bytes is not
/// claimed, as they are random.
#[verifier::external_body]
fn generate_salt() -> (r: String)
    ensures
        is_generated_salt(r@),
{
    SaltString::generate(&mut OsRng).as_str().to_string()
}

/// Calls `PasswordHasher::hash_password` of `Argon2::default()` with the
/// salt read by `SaltString::from_b64`, and writes the PHC string.  Claimed:
/// the result is `argon2_hash_of` the arguments; the string it gives
/// verifies the same password (verification re-hashes with the salt and
/// parameters that the string records and compares the outputs); and with a
/// generated salt (16 bytes, which Argon2's 8-to-64-byte bound admits) the
/// hashing succeeds exactly when the password has at most
/// `MAX_PASSWORD_BYTES` bytes.
#[verifier::external_body]
fn argon2_hash(password: &str, salt: &str) -> (r: Option<String>)
    ensures
        match r {
            Some(h) => argon2_hash_of(password@, salt@) == Some(h@),
            None => argon2_hash_of(password@, salt@) is None,
        },
        r matches Some(h) ==> argon2_verify_outcome(password@, h@) == Some(true),
        is_generated_salt(salt@) ==> (r is Some <==> password_fits(password@)),
{
    let salt = match SaltString::from_b64(salt) {
        Ok(s) => s,
        Err(_) => return None,
    };
    match Argon2::default().hash_password(password.as_bytes(), &salt) {
        Ok(h) => Some(h.to_string()),
        Err(_) => None,
    }
}

/// Calls `PasswordVerifier::verify_password` of `Argon2::default()` on the
/// hash read by `PasswordHash::new`.  Claimed: the result is
/// `argon2_verify_outcome` of the arguments.
#[verifier::external_body]
fn argon2_verify(password: &str, hash: &str) -> (r: Option<bool>)
    ensures
        r == argon2_verify_outcome(password@, hash@),
{
    match PasswordHash::new(hash) {
        Ok(parsed) => Some(Argon2::default().verify_password(password.as_bytes(), &parsed).is_ok()),
        Err(_) => None,
    }
}

/// The answer of a password hashing: the PHC string, or 500 when hashing
/// failed.
pub fn password_hash_result(outcome: Option<String>) -> (r: Result<String, StatusCode>)
    ensures
        match outcome {
            Some(h) => r matches Ok(s) && s == h,
            None => r == Err::<String, StatusCode>(StatusCode::INTERNAL_SERVER_ERROR),
        },
{
    match outcome {
        Some(h) => Ok(h),
        None => Err(StatusCode::INTERNAL_SERVER_ERROR),
    }
}

/// Hashes a password with Argon2 and a fresh random salt.
///
/// Hashing succeeds exactly when the password fits Argon2's bound
/// (`password_fits`), and fails with 500 otherwise.  The hash is Argon2's for
/// the password and some generated salt, and it verifies the password it was
/// made of: checking the same password against it answers `Ok(true)`.
pub fn hash_password(password: &str) -> (r: Result<String, StatusCode>)
    ensures
        r is Ok <==> password_fits(password@),
        r matches Err(e) ==> e == StatusCode::INTERNAL_SERVER_ERROR,
        r matches Ok(h) ==> exists|salt: Seq<char>|
            is_generated_salt(salt) && #[trigger] argon2_hash_of(password@, salt) == Some(h@),
        r matches Ok(h) ==> spec_verify_password(password@, h@) == Ok::<bool, StatusCode>(true),
{
    let salt = generate_salt();
    let outcome = argon2_hash(password, salt.as_str());
    let r = password_hash_result(outcome);
    proof {
        if r is Ok {
            assert(is_generated_salt(salt@) && argon2_hash_of(password@, salt@) == Some(r->Ok_0@));
        }
    }
    r
}

/// The answer of a password check: whether it matches, or 401 when the
/// stored hash does not parse.
pub open spec fn spec_verify_password(password: Seq<char>, hash: Seq<char>) -> Result<
    bool,
    StatusCode,
> {
    match argon2_verify_outcome(password, hash) {
        Some(ok) => Ok(ok),
        None => Err(StatusCode::UNAUTHORIZED),
    }
}

/// Maps the outcome of the check to the answer.
pub fn password_check_result(outcome: Option<bool>) -> (r: Result<bool, StatusCode>)
    ensures
        r == match outcome {
            Some(ok) => Ok(ok),
            None => Err(StatusCode::UNAUTHORIZED),
        },
{
    match outcome {
        Some(ok) => Ok(ok),
        None => Err(StatusCode::UNAUTHORIZED),
    }
}

/// Checks a password against a stored Argon2 hash.
pub fn verify_password(password: &str, hash: &str) -> (r: Result<bool, StatusCode>)
    ensures
        r == spec_verify_password(password@, hash@),
{
    password_check_result(argon2_verify(password, hash))
}

/// The claims of a token issued at `now` (seconds since the Unix epoch) for
/// the user with the given email and id text: valid for one hour.
pub fn login_claims(email: &str, user_id: &str, now: i64) -> (c: Claims)
    requires
        now <= i64::MAX - TOKEN_LIFETIME_SECS,
    ensures
        c.sub@ == email@,
        c.user_id@ == user_id@,
        c.exp == (now + TOKEN_LIFETIME_SECS) as usize,
{
    let expires: i64 = now + TOKEN_LIFETIME_SECS;
    Claims { sub: email.to_owned(), exp: expires as usize, user_id: user_id.to_owned() }
}

/// The caller's bearer token, or 401 when the request carries none.
pub fn extract_bearer_token(headers: &HeaderMap) -> (r: Result<String, StatusCode>)
    ensures
        match bearer_token_of(*headers) {
            Some(t) => r matches Ok(s) && s@ == t,
            None => r == Err::<String, StatusCode>(StatusCode::UNAUTHORIZED),
        },
{
    match bearer_token(headers) {
        Some(t) => Ok(t),
        None => Err(StatusCode::UNAUTHORIZED),
    }
}

/// The answer of reading an identifier out of a token: the id, or 401.
pub open spec fn spec_id_result(parsed: Option<u128>) -> Result<u128, StatusCode> {
    match parsed {
        Some(id) => Ok(id),
        None => Err(StatusCode::UNAUTHORIZED),
    }
}

/// Maps a parsed identifier to the answer (see `spec_id_result`).
pub fn id_result(parsed: Option<u128>) -> (r: Result<u128, StatusCode>)
    ensures
        r == spec_id_result(parsed),
{
    match parsed {
        Some(id) => Ok(id),
        None => Err(StatusCode::UNAUTHORIZED),
    }
}

/// The user a validated token speaks for: its `user_id` claim read as a UUID
/// (not `sub`, which holds the email), or 401.
///
/// A token issued for a user names that user: when the claim is the text of
/// an id, the id is what comes back.
pub fn user_id_from_claims(claims: &Claims) -> (r: Result<u128, StatusCode>)
    ensures
        r == spec_id_result(uuid_parse(claims.user_id@)),
        forall|id: u128| claims.user_id@ == uuid_text(id) ==> r == Ok::<u128, StatusCode>(id),
{
    let parsed = parse_uuid(claims.user_id.as_str());
    proof {
        assert forall|id: u128| claims.user_id@ == uuid_text(id) implies parsed == Some(id) by {
            lemma_uuid_text_parses_back(id);
            assert(uuid_text(id).len() == 36);
        }
    }
    id_result(parsed)
}

} // verus!
