use vstd::prelude::*;

use crate::error::PaymeError;

verus! {

/// Relies on validator's `ValidateLength::validate_length` for `String`,
/// which counts characters: true when their number lies in `min..=max`.
#[verifier::external_body]
fn length_within(s: &String, min: u64, max: u64) -> (r: bool)
    ensures
        r == (min <= s@.len() <= max),
{
    validator::ValidateLength::<u64>::validate_length(s, Some(min), Some(max), None)
}

/// `r` refuses the request for its field `field`.
pub open spec fn rejects(r: Result<(), PaymeError>, field: Seq<char>) -> bool {
    r is Err && r->Err_0 is Validation && r->Err_0->Validation_0@ == field
}

/// A user name has 3 to 32 characters.
pub open spec fn valid_username(s: Seq<char>) -> bool {
    3 <= s.len() <= 32
}

/// A password has 6 to 128 characters.
pub open spec fn valid_password(s: Seq<char>) -> bool {
    6 <= s.len() <= 128
}

/// A currency code has 1 to 3 characters.
pub open spec fn valid_currency(s: Seq<char>) -> bool {
    1 <= s.len() <= 3
}

fn check_username(s: &String, field: &str) -> (r: Result<(), PaymeError>)
    ensures
        valid_username(s@) ==> r is Ok,
        !valid_username(s@) ==> rejects(r, field@),
{
    if length_within(s, 3, 32) {
        Ok(())
    } else {
        Err(PaymeError::Validation(String::from_str(field)))
    }
}

fn check_password(s: &String, field: &str) -> (r: Result<(), PaymeError>)
    ensures
        valid_password(s@) ==> r is Ok,
        !valid_password(s@) ==> rejects(r, field@),
{
    if length_within(s, 6, 128) {
        Ok(())
    } else {
        Err(PaymeError::Validation(String::from_str(field)))
    }
}

/// Credentials of a login.
pub struct LoginRequest {
    pub username: String,
    pub password: String,
}

impl LoginRequest {
    /// Accepts a user name of 3 to 32 characters and a password of 6 to 128;
    /// otherwise names the first field that is out of bounds.
    pub fn validate(&self) -> (r: Result<(), PaymeError>)
        ensures
            r is Ok <==> valid_username(self.username@) && valid_password(self.password@),
            !valid_username(self.username@) ==> rejects(r, "username"@),
            valid_username(self.username@) && !valid_password(self.password@) ==> rejects(
                r,
                "password"@,
            ),
    {
        check_username(&self.username, "username")?;
        check_password(&self.password, "password")
    }
}

/// What a new account is opened with.
pub struct RegisterRequest {
    pub username: String,
    pub password: String,
    pub currency: String,
}

impl RegisterRequest {
    /// Accepts a user name of 3 to 32 characters, a password of 6 to 128 and a
    /// currency code of 1 to 3; otherwise names the first field out of bounds.
    pub fn validate(&self) -> (r: Result<(), PaymeError>)
        ensures
            r is Ok <==> valid_username(self.username@) && valid_password(self.password@)
                && valid_currency(self.currency@),
            !valid_username(self.username@) ==> rejects(r, "username"@),
            valid_username(self.username@) && !valid_password(self.password@) ==> rejects(
                r,
                "password"@,
            ),
            valid_username(self.username@) && valid_password(self.password@) && !valid_currency(
                self.currency@,
            ) ==> rejects(r, "currency"@),
    {
        check_username(&self.username, "username")?;
        check_password(&self.password, "password")?;
        if length_within(&self.currency, 1, 3) {
            Ok(())
        } else {
            Err(PaymeError::Validation(String::from_str("currency")))
        }
    }
}

/// The public profile of a user.
#[derive(Clone, Debug, PartialEq, Eq)]
pub struct AuthResponse {
    pub id: i64,
    pub username: String,
    pub currency: String,
}

/// A request to rename the caller.
pub struct ChangeUsernameRequest {
    pub new_username: String,
}

impl ChangeUsernameRequest {
    /// Accepts a new user name of 3 to 32 characters.
    pub fn validate(&self) -> (r: Result<(), PaymeError>)
        ensures
            valid_username(self.new_username@) ==> r is Ok,
            !valid_username(self.new_username@) ==> rejects(r, "new_username"@),
    {
        check_username(&self.new_username, "new_username")
    }
}

/// A request to replace the caller's password.
pub struct ChangePasswordRequest {
    pub current_password: String,
    pub new_password: String,
}

impl ChangePasswordRequest {
    /// Accepts two passwords of 6 to 128 characters each; otherwise names the
    /// first one out of bounds.
    pub fn validate(&self) -> (r: Result<(), PaymeError>)
        ensures
            r is Ok <==> valid_password(self.current_password@) && valid_password(
                self.new_password@,
            ),
            !valid_password(self.current_password@) ==> rejects(r, "current_password"@),
            valid_password(self.current_password@) && !valid_password(self.new_password@)
                ==> rejects(r, "new_password"@),
    {
        check_password(&self.current_password, "current_password")?;
        check_password(&self.new_password, "new_password")
    }
}

/// A request to delete all of the caller's data, confirmed by password.
pub struct ClearDataRequest {
    pub password: String,
}

impl ClearDataRequest {
    /// Accepts a password of 6 to 128 characters.
    pub fn validate(&self) -> (r: Result<(), PaymeError>)
        ensures
            valid_password(self.password@) ==> r is Ok,
            !valid_password(self.password@) ==> rejects(r, "password"@),
    {
        check_password(&self.password, "password")
    }
}

/// What a session token asserts: the user's id and name, and when it
/// expires, in seconds since the Unix epoch.
#[derive(Clone, Debug, PartialEq, Eq)]
pub struct Claims {
    pub sub: i64,
    pub username: String,
    pub exp: usize,
}

} // verus!
