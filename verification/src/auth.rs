//! Account data and the decision logic of the authentication layer:
//! password hashing and verification, reading a user out of session values,
//! and the admission checks of the admin API.
use vstd::prelude::*;

verus! {

/// A stored user account row.
#[derive(Debug, Clone)]
pub struct User {
    pub id: i64,
    pub username: String,
    pub password_hash: String,
    pub is_admin: bool,
}

/// The public face of an account: a `User` without its password hash.
#[derive(Debug, Clone)]
pub struct UserInfo {
    pub id: i64,
    pub username: String,
    pub is_admin: bool,
}

impl From<User> for UserInfo {
    fn from(user: User) -> (r: UserInfo) {
        UserInfo { id: user.id, username: user.username, is_admin: user.is_admin }
    }
}

impl vstd::std_specs::convert::FromSpecImpl<User> for UserInfo {
    open spec fn obeys_from_spec() -> bool {
        true
    }

    open spec fn from_spec(user: User) -> UserInfo {
        UserInfo { id: user.id, username: user.username, is_admin: user.is_admin }
    }
}

/// The user a session holds: one exists exactly when the session carries all
/// three values (id, username, admin flag), and it is assembled from them.
pub fn session_user(user_id: Option<i64>, username: Option<String>, is_admin: Option<bool>) -> (r:
    Option<UserInfo>)
    ensures
        r is Some <==> (user_id is Some && username is Some && is_admin is Some),
        r is Some ==> r->0.id == user_id->0 && r->0.username == username->0 && r->0.is_admin
            == is_admin->0,
{
    match (user_id, username, is_admin) {
        (Some(id), Some(name), Some(admin)) => Some(
            UserInfo { id, username: name, is_admin: admin },
        ),
        _ => None,
    }
}

/// Whether bcrypt verification of a password against a salted bcrypt hash
/// succeeds; deterministic in the two arguments.
pub uninterp spec fn bcrypt_verified(password: Seq<char>, hash: Seq<char>) -> bool;

/// Relies on bcrypt::verify: whether the password matches the salted bcrypt
/// hash, a deterministic function of the two arguments, named
/// `bcrypt_verified`. A malformed hash counts as a failed match rather than
/// an error.
#[verifier::external_body]
pub fn verify_password(password: &str, hash: &str) -> (r: bool)
    ensures
        r == bcrypt_verified(password@, hash@),
{
    bcrypt::verify(password, hash).unwrap_or(false)
}

#[verifier::external_type_specification]
#[verifier::external_body]
pub struct ExBcryptError(bcrypt::BcryptError);

/// Relies on bcrypt::hash at cost 12: a salted hash of the password under a
/// fresh random salt, failing only when the system randomness fails. The
/// result differs from call to call; what holds of every outcome is that
/// bcrypt verification of the same password against it succeeds.
#[verifier::external_body]
pub fn hash_password(password: &str) -> (r: Result<String, bcrypt::BcryptError>)
    ensures
        r is Ok ==> bcrypt_verified(password@, r->Ok_0@),
{
    bcrypt::hash(password, 12)
}

/// A failed login. Whether the account is unknown or the password wrong is
/// deliberately not told apart.
#[derive(Debug, Clone, Copy, PartialEq, Eq, Structural)]
pub struct AuthError;

/// The login decision on a looked-up account row: the row must exist and the
/// password must match its stored bcrypt hash; the two failures are
/// indistinguishable to the caller.
pub fn authenticate(row: Option<User>, password: &str) -> (r: Result<User, AuthError>)
    ensures
        r is Ok <==> (row is Some && bcrypt_verified(password@, row->0.password_hash@)),
        r is Ok ==> r->Ok_0 == row->0,
{
    match row {
        Some(user) => {
            if verify_password(password, user.password_hash.as_str()) {
                Ok(user)
            } else {
                Err(AuthError)
            }
        },
        None => Err(AuthError),
    }
}

/// Why a password change was refused.
#[derive(Debug, Clone, Copy, PartialEq, Eq, Structural)]
pub enum PasswordChangeError {
    IncorrectPassword,
    HashFailure,
}

/// Decide a password-change request against the stored hash: the current
/// password must match it, and the new password is then hashed for storage.
pub fn change_password(current: &str, new_password: &str, stored_hash: &str) -> (r: Result<
    String,
    PasswordChangeError,
>)
    ensures
        r is Ok ==> bcrypt_verified(current@, stored_hash@) && bcrypt_verified(
            new_password@,
            r->Ok_0@,
        ),
        r == Err::<String, PasswordChangeError>(PasswordChangeError::IncorrectPassword)
            <==> !bcrypt_verified(current@, stored_hash@),
{
    if !verify_password(current, stored_hash) {
        return Err(PasswordChangeError::IncorrectPassword);
    }
    match hash_password(new_password) {
        Ok(h) => Ok(h),
        Err(_) => Err(PasswordChangeError::HashFailure),
    }
}

/// Why an admin API call was refused before touching the store.
#[derive(Debug, Clone, Copy, PartialEq, Eq, Structural)]
pub enum AdminGateError {
    NotAuthenticated,
    NotAdmin,
}

/// Admit only an authenticated administrator.
pub fn require_admin(user: &Option<UserInfo>) -> (r: Result<(), AdminGateError>)
    ensures
        r is Ok <==> (user is Some && user->0.is_admin),
        r == Err::<(), AdminGateError>(AdminGateError::NotAuthenticated) <==> user is None,
        r == Err::<(), AdminGateError>(AdminGateError::NotAdmin) <==> (user is Some
            && !user->0.is_admin),
{
    match user {
        Some(u) => {
            if u.is_admin {
                Ok(())
            } else {
                Err(AdminGateError::NotAdmin)
            }
        },
        None => Err(AdminGateError::NotAuthenticated),
    }
}

/// Why a user deletion was refused.
#[derive(Debug, Clone, Copy, PartialEq, Eq, Structural)]
pub enum DeleteGateError {
    NotAuthenticated,
    NotAdmin,
    OwnAccount,
}

/// Admit a deletion only by an administrator, and never of their own account.
pub fn authorize_user_delete(user: &Option<UserInfo>, target_id: i64) -> (r: Result<
    (),
    DeleteGateError,
>)
    ensures
        r is Ok <==> (user is Some && user->0.is_admin && user->0.id != target_id),
        r == Err::<(), DeleteGateError>(DeleteGateError::NotAuthenticated) <==> user is None,
        r == Err::<(), DeleteGateError>(DeleteGateError::NotAdmin) <==> (user is Some
            && !user->0.is_admin),
        r == Err::<(), DeleteGateError>(DeleteGateError::OwnAccount) <==> (user is Some
            && user->0.is_admin && user->0.id == target_id),
{
    match user {
        Some(u) => {
            if !u.is_admin {
                Err(DeleteGateError::NotAdmin)
            } else if u.id == target_id {
                Err(DeleteGateError::OwnAccount)
            } else {
                Ok(())
            }
        },
        None => Err(DeleteGateError::NotAuthenticated),
    }
}

} // verus!
