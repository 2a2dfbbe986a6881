//! The user-account data model and the pure parts of the account service:
//! the login and password-change decisions around the stored bcrypt hash,
//! the registration gate, and the identity check of the request middleware.

use vstd::prelude::*;

verus! {

/// A stored user account.
#[derive(Debug)]
pub struct User {
    pub id: i64,
    pub username: String,
    pub password_hash: String,
    pub email: Option<String>,
    pub display_name: Option<String>,
    pub created_at: String,
    pub updated_at: String,
    pub last_login_at: Option<String>,
    pub is_active: i64,
}

/// A user as reported to clients: the stored account without its secrets.
#[derive(Debug)]
pub struct UserResponse {
    pub id: i64,
    pub username: String,
    pub email: Option<String>,
    pub display_name: Option<String>,
    pub created_at: String,
    pub last_login_at: Option<String>,
}

impl UserResponse {
    /// Shape a stored account into its client response, dropping the
    /// password hash and the bookkeeping fields.
    pub fn from(user: User) -> (r: UserResponse)
        ensures
            r.id == user.id,
            r.username@ == user.username@,
            r.email == user.email,
            r.display_name == user.display_name,
            r.created_at@ == user.created_at@,
            r.last_login_at == user.last_login_at,
    {
        UserResponse {
            id: user.id,
            username: user.username,
            email: user.email,
            display_name: user.display_name,
            created_at: user.created_at,
            last_login_at: user.last_login_at,
        }
    }
}

/// A registration request.
#[derive(Debug)]
pub struct RegisterRequest {
    pub username: String,
    pub password: String,
    pub email: Option<String>,
    pub display_name: Option<String>,
}

/// A login request.
#[derive(Debug)]
pub struct LoginRequest {
    pub username: String,
    pub password: String,
}

/// A password-change request.
#[derive(Debug)]
pub struct ChangePasswordRequest {
    pub old_password: String,
    pub new_password: String,
}

/// The identity attached to an authenticated request.
#[derive(Debug, Clone)]
pub struct CurrentUser {
    pub user_id: i64,
    pub username: String,
}

/// One failure of the account service.
#[derive(Debug, Clone, PartialEq, Eq, Structural)]
pub enum UserError {
    /// The account is unknown, inactive, or the password does not match;
    /// the three fail alike so that probing reveals nothing.
    BadCredentials,
    /// The stored hash could not be read back.
    HashUnreadable,
    /// A new hash could not be produced.
    HashFailure,
    /// The requested user name is already taken.
    UsernameTaken,
    /// The acting account no longer exists.
    UserMissing,
    /// The old password of a change request does not match.
    WrongOldPassword,
}

impl UserError {
    /// The message text of this failure.
    pub open spec fn spec_message(&self) -> Seq<char> {
        match self {
            UserError::BadCredentials => "wrong user name or password"@,
            UserError::HashUnreadable => "the stored password hash is unreadable"@,
            UserError::HashFailure => "the password could not be hashed"@,
            UserError::UsernameTaken => "the user name is already taken"@,
            UserError::UserMissing => "the user does not exist"@,
            UserError::WrongOldPassword => "the old password is wrong"@,
        }
    }

    /// The message reported to the client for this failure.
    pub fn message(&self) -> (m: String)
        ensures
            m@ == self.spec_message(),
    {
        match self {
            UserError::BadCredentials => String::from_str("wrong user name or password"),
            UserError::HashUnreadable => String::from_str(
                "the stored password hash is unreadable",
            ),
            UserError::HashFailure => String::from_str("the password could not be hashed"),
            UserError::UsernameTaken => String::from_str("the user name is already taken"),
            UserError::UserMissing => String::from_str("the user does not exist"),
            UserError::WrongOldPassword => String::from_str("the old password is wrong"),
        }
    }
}

#[verifier::external_type_specification]
#[verifier::external_body]
pub struct ExBcryptError(bcrypt::BcryptError);

/// What `bcrypt::verify` decides for this password against this stored
/// hash: whether they match, or nothing when the hash text cannot be read
/// back. The outcome depends on the two texts alone — the salt is taken
/// from the hash itself.
pub uninterp spec fn bcrypt_matches(password: Seq<char>, hash: Seq<char>) -> Option<bool>;

/// Relies on bcrypt::verify: it recomputes the hash from the password and
/// the salt carried inside `hash` and compares; an unreadable hash is the
/// error case.
#[verifier::external_body]
fn bcrypt_verify(password: &str, hash: &str) -> (r: Result<bool, bcrypt::BcryptError>)
    ensures
        r matches Ok(b) ==> bcrypt_matches(password@, hash@) == Some(b),
        r is Err ==> bcrypt_matches(password@, hash@) is None,
{
    bcrypt::verify(password, hash)
}

/// Relies on bcrypt::hash at the crate's default cost: the salt is drawn
/// from the system's randomness, so nothing ties the result to the inputs;
/// callers store whatever came back.
#[verifier::external_body]
fn bcrypt_hash_default(password: &str) -> (r: Result<String, bcrypt::BcryptError>)
{
    bcrypt::hash(password, bcrypt::DEFAULT_COST)
}

/// The login decision once the account was fetched: an absent account and a
/// mismatched password fail alike; only a readable hash that matches lets
/// the account through, unchanged.
pub fn check_login(user: Option<User>, password: &str) -> (r: Result<User, UserError>)
    ensures
        match user {
            None => (r matches Err(e) && e == UserError::BadCredentials),
            Some(u) => match bcrypt_matches(password@, u.password_hash@) {
                Some(true) => (r matches Ok(v) && v == u),
                Some(false) => (r matches Err(e) && e == UserError::BadCredentials),
                None => (r matches Err(e) && e == UserError::HashUnreadable),
            },
        },
{
    match user {
        None => Err(UserError::BadCredentials),
        Some(u) => match bcrypt_verify(password, u.password_hash.as_str()) {
            Ok(true) => Ok(u),
            Ok(false) => Err(UserError::BadCredentials),
            Err(_) => Err(UserError::HashUnreadable),
        },
    }
}

/// The registration gate: a taken user name is refused before anything is
/// stored.
pub fn register_check(username_taken: bool) -> (r: Result<(), UserError>)
    ensures
        r is Ok <==> !username_taken,
        r matches Err(e) ==> e == UserError::UsernameTaken,
{
    if username_taken {
        Err(UserError::UsernameTaken)
    } else {
        Ok(())
    }
}

/// Hash a new password for storage; the hash is whatever the hasher drew,
/// and a hasher failure is reported as such.
pub fn hash_new_password(password: &str) -> (r: Result<String, UserError>)
    ensures
        r matches Err(e) ==> e == UserError::HashFailure,
{
    match bcrypt_hash_default(password) {
        Ok(h) => Ok(h),
        Err(_) => Err(UserError::HashFailure),
    }
}

/// The password-change decision once the account was fetched: the acting
/// account must still exist and its old password must match the stored
/// hash.
pub fn check_old_password(user: &Option<User>, old_password: &str) -> (r: Result<(), UserError>)
    ensures
        match user {
            None => (r matches Err(e) && e == UserError::UserMissing),
            Some(ref u) => match bcrypt_matches(old_password@, u.password_hash@) {
                Some(true) => r is Ok,
                Some(false) => (r matches Err(e) && e == UserError::WrongOldPassword),
                None => (r matches Err(e) && e == UserError::HashUnreadable),
            },
        },
{
    match user {
        None => Err(UserError::UserMissing),
        Some(u) => match bcrypt_verify(old_password, u.password_hash.as_str()) {
            Ok(true) => Ok(()),
            Ok(false) => Err(UserError::WrongOldPassword),
            Err(_) => Err(UserError::HashUnreadable),
        },
    }
}

/// The identity check of the request middleware: a request passes exactly
/// when the session carries both the user id and the user name.
pub fn authenticate(user_id: Option<i64>, username: Option<String>) -> (r: Option<CurrentUser>)
    ensures
        r is Some <==> (user_id is Some && username is Some),
        r matches Some(c) ==> {
            &&& user_id == Some(c.user_id)
            &&& username matches Some(n) && c.username@ == n@
        },
{
    match (user_id, username) {
        (Some(id), Some(name)) => Some(CurrentUser { user_id: id, username: name }),
        _ => None,
    }
}

} // verus!
