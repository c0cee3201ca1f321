use vstd::prelude::*;

verus! {

/// The credentials of a login request.
#[derive(Debug, Clone, PartialEq, Eq)]
pub struct LoginInfo {
    pub email: String,
    pub password: String,
}

/// The answer to a successful login: a signed token.
#[derive(Debug, Clone, PartialEq, Eq)]
pub struct LoginResponse {
    pub token: String,
}

/// A registration request.  It is valid when the username has at least one
/// character, the email is an email address and the password has at least
/// six characters.
#[derive(Debug, Clone, PartialEq, Eq)]
pub struct RegisterInfo {
    pub username: String,
    pub email: String,
    pub password: String,
}

/// The claims of a token: `sub` is the email, for display, and `user_id` the
/// text of the user's UUID, by which requests are scoped.  `exp` is the
/// expiry, in seconds since the Unix epoch.
#[derive(Debug, Clone, PartialEq, Eq)]
pub struct Claims {
    pub sub: String,
    pub exp: usize,
    pub user_id: String,
}

/// The answer to a successful registration: the text of the new user's UUID.
#[derive(Debug, Clone, PartialEq, Eq)]
pub struct RegisterResponse {
    pub id: String,
}

/// Which fields of a `RegisterInfo` failed their rule.
#[derive(Debug, Clone, Copy, PartialEq, Eq, Structural)]
pub struct ValidationErrors {
    pub username: bool,
    pub email: bool,
    pub password: bool,
}

/// The shortest username that is accepted, in characters.
pub const USERNAME_MIN_CHARS: u64 = 1;

/// The shortest password that is accepted, in characters.
pub const PASSWORD_MIN_CHARS: u64 = 6;

/// What `validator::ValidateEmail::validate_email` answers for a text: the
/// HTML5 form of an address, with a local part of at most 64 characters and a
/// domain of at most 255, the domain possibly an IP literal or an
/// internationalised name.
pub uninterp spec fn email_valid(s: Seq<char>) -> bool;

/// Calls `validator::ValidateEmail::validate_email` on a text.  Claimed: the
/// answer is `email_valid` of the text, and a text without `@` is never
/// accepted (the function returns false first thing when it finds none).
#[verifier::external_body]
fn email_is_valid(s: &str) -> (r: bool)
    ensures
        r == email_valid(s@),
        r ==> s@.contains('@'),
{
    validator::ValidateEmail::validate_email(&s)
}

/// Calls `validator::ValidateLength::validate_length` with only a minimum.
/// Claimed, as its source shows for strings: the length is the number of
/// characters, and the check passes when it is at least `min`.
#[verifier::external_body]
fn length_at_least(s: &str, min: u64) -> (r: bool)
    ensures
        r == (s@.len() >= min),
{
    validator::ValidateLength::<u64>::validate_length(s, Some(min), None, None)
}

impl RegisterInfo {
    pub open spec fn username_ok(&self) -> bool {
        self.username@.len() >= USERNAME_MIN_CHARS
    }

    pub open spec fn email_ok(&self) -> bool {
        email_valid(self.email@)
    }

    pub open spec fn password_ok(&self) -> bool {
        self.password@.len() >= PASSWORD_MIN_CHARS
    }

    pub open spec fn is_valid(&self) -> bool {
        self.username_ok() && self.email_ok() && self.password_ok()
    }

    /// Checks every field; the error names exactly the fields that failed.
    pub fn validate(&self) -> (r: Result<(), ValidationErrors>)
        ensures
            r is Ok <==> self.is_valid(),
            r matches Err(e) ==> e == (ValidationErrors {
                username: !self.username_ok(),
                email: !self.email_ok(),
                password: !self.password_ok(),
            }),
    {
        let username = length_at_least(self.username.as_str(), USERNAME_MIN_CHARS);
        let email = email_is_valid(self.email.as_str());
        let password = length_at_least(self.password.as_str(), PASSWORD_MIN_CHARS);
        if username && email && password {
            Ok(())
        } else {
            Err(ValidationErrors { username: !username, email: !email, password: !password })
        }
    }
}

} // verus!
