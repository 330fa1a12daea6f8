//! Accounts and credentials: registration, the check of a password, and
//! the claims that a token carries.

use vstd::prelude::*;
use crate::error::ApiError;
use crate::models::Claims;
use crate::models::LoginResponse;
use crate::models::RegisterRequest;
use crate::models::User;
use crate::password::check_password;
use crate::password::fresh_salt;
use crate::password::hash_with_salt;
use crate::password::is_phc_string;
use crate::password::password_verifies;
use crate::text::text_of;

verus! {

/// For how many seconds a token is valid from the moment it is issued.
pub const TOKEN_LIFETIME_SECS: usize = 3600;

/// Why credentials could not be checked.
#[derive(Clone, Copy, Debug, PartialEq, Eq, Structural)]
pub enum CredentialError {
    /// What the store holds for the account is not a password hash.
    MalformedHash,
}

/// The claims of a token that is issued to `account` at `now`, in seconds
/// since the Unix epoch: it is valid for one hour.
pub fn issue_claims(account: &str, now: usize) -> (claims: Claims)
    requires
        now + TOKEN_LIFETIME_SECS <= usize::MAX,
    ensures
        claims.sub@ == account@,
        claims.iat == now,
        claims.exp == now + TOKEN_LIFETIME_SECS,
{
    Claims { sub: account.to_string(), exp: now + TOKEN_LIFETIME_SECS, iat: now }
}

/// The account to store for a registration, given the hash that was
/// computed for its password; a hash that could not be computed is an
/// internal failure.
pub fn new_account(payload: RegisterRequest, hash: Option<String>) -> (account: Result<
    User,
    ApiError,
>)
    ensures
        match account {
            Ok(user) => {
                &&& text_of(hash) == Some(user.password@)
                &&& user.account@ == payload.account@
                &&& text_of(user.username) == Some(payload.username@)
            },
            Err(e) => hash is None && e == ApiError::Internal,
        },
{
    match hash {
        Some(password) => Ok(
            User { account: payload.account, password, username: Some(payload.username) },
        ),
        None => Err(ApiError::Internal),
    }
}

/// The account to store for a registration: the password is hashed with a
/// fresh random salt and never kept as it was given.
pub fn register(payload: RegisterRequest) -> (account: Result<User, ApiError>)
    ensures
        match account {
            Ok(user) => user.account@ == payload.account@ && text_of(user.username) == Some(
                payload.username@,
            ),
            Err(e) => e == ApiError::Internal,
        },
{
    let salt = fresh_salt();
    let hash = hash_with_salt(payload.password.as_str(), &salt);
    new_account(payload, hash)
}

/// What a password check gives for an account: its display name where the
/// password matched, and nothing where it did not.
pub fn checked_credentials(user: User, accepted: bool) -> (username: Option<String>)
    ensures
        username == if accepted {
            user.username
        } else {
            None
        },
{
    if accepted {
        user.username
    } else {
        None
    }
}

/// What the check of `password` against `user` gives: an error where what
/// the store holds for the account is no password hash, the account's
/// display name where the password verifies against the hash, and nothing
/// where it does not.
pub open spec fn credential_check(user: User, password: Seq<char>) -> Result<
    Option<String>,
    CredentialError,
> {
    if !is_phc_string(user.password@) {
        Err(CredentialError::MalformedHash)
    } else if password_verifies(password, user.password@) {
        Ok(user.username)
    } else {
        Ok(None)
    }
}

/// Checks `password` against the account that the store holds, if it holds
/// one. The result is the account's display name where the password
/// verifies against the stored hash, `None` where there is no such account
/// or the password does not verify, and an error where what the store
/// holds is no password hash.
pub fn validate_credentials(user: Option<User>, password: &str) -> (username: Result<
    Option<String>,
    CredentialError,
>)
    ensures
        username == match user {
            Some(u) => credential_check(u, password@),
            None => Ok(None),
        },
{
    match user {
        Some(user) => match check_password(password, user.password.as_str()) {
            Some(accepted) => Ok(checked_credentials(user, accepted)),
            None => Err(CredentialError::MalformedHash),
        },
        None => Ok(None),
    }
}

/// The answer to a login. `validated` is what the check of the
/// credentials gave, `token` the token that was signed for the account, if
/// signing worked. Valid credentials with a token log in; credentials that
/// did not check out are unauthorized, whatever became of the token; a
/// check or a signing that failed is an internal failure.
pub fn login(validated: Result<Option<String>, CredentialError>, token: Option<String>) -> (response:
    Result<LoginResponse, ApiError>)
    ensures
        match response {
            Ok(granted) => {
                &&& validated matches Ok(Some(username))
                &&& granted.username == username
                &&& token == Some(granted.token)
            },
            Err(e) => e == match validated {
                Ok(Some(_)) => ApiError::Internal,
                Ok(None) => ApiError::Unauthorized,
                Err(_) => ApiError::Internal,
            } && !(validated matches Ok(Some(_)) && token is Some),
        },
{
    match validated {
        Ok(Some(username)) => match token {
            Some(token) => Ok(LoginResponse { username, token }),
            None => Err(ApiError::Internal),
        },
        Ok(None) => Err(ApiError::Unauthorized),
        Err(_) => Err(ApiError::Internal),
    }
}

} // verus!
