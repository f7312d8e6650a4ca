//! Password login and the errors that the web layer reports.

use vstd::prelude::*;
use vstd::string::*;
use crate::consts::ENCRYPTION_ROUNDS;
use crate::identity::UserModel;
use crate::util::JsonErrorResponse;

verus! {

/// Why a password login or a registration failed. Errors of the database and of the
/// password hasher carry their message.
#[derive(Debug, Clone, PartialEq, Eq)]
pub enum UserAuthError {
    DatabaseError(String),
    UserNotFound,
    UserAlreadyExists,
    PasswordInvalid,
    EncryptionError(String),
}

/// A user record together with its password hash, if the account has a password.
#[derive(Debug, Clone)]
pub struct UserModelWithPassword {
    pub id: String,
    pub username: String,
    pub email: String,
    pub password: Option<String>,
    pub created_at: i64,
    pub name: Option<String>,
}

/// The fields of a registration form.
#[derive(Debug, Clone)]
pub struct CreateUserModel {
    pub username: String,
    pub email: String,
    pub password: String,
    pub name: String,
}

impl UserAuthError {
    pub open spec fn spec_code(&self) -> Seq<char> {
        match self {
            UserAuthError::DatabaseError(_) => "DATABASE_ERROR"@,
            UserAuthError::UserNotFound => "USER_NOT_FOUND"@,
            UserAuthError::UserAlreadyExists => "USER_EXISTS"@,
            UserAuthError::PasswordInvalid => "PASSWORD_INVALID"@,
            UserAuthError::EncryptionError(_) => "ENCRYPTION_ERROR"@,
        }
    }

    pub open spec fn spec_message(&self) -> Seq<char> {
        match self {
            UserAuthError::DatabaseError(m) => "Error from database: "@ + m@,
            UserAuthError::UserNotFound => "No user found with provided username or email"@,
            UserAuthError::UserAlreadyExists => "User already exists"@,
            UserAuthError::PasswordInvalid => "Password is invalid or incorrect"@,
            UserAuthError::EncryptionError(_) => "Error occurred during password encryption"@,
        }
    }

    pub open spec fn spec_status(&self) -> u16 {
        match self {
            UserAuthError::DatabaseError(_) => 500,
            UserAuthError::UserNotFound => 404,
            UserAuthError::UserAlreadyExists => 409,
            UserAuthError::PasswordInvalid => 401,
            UserAuthError::EncryptionError(_) => 500,
        }
    }

    /// The machine-readable code of the error.
    pub fn get_err_code(&self) -> (r: String)
        ensures
            r@ == self.spec_code(),
    {
        match self {
            UserAuthError::DatabaseError(_) => "DATABASE_ERROR".to_owned(),
            UserAuthError::UserNotFound => "USER_NOT_FOUND".to_owned(),
            UserAuthError::UserAlreadyExists => "USER_EXISTS".to_owned(),
            UserAuthError::PasswordInvalid => "PASSWORD_INVALID".to_owned(),
            UserAuthError::EncryptionError(_) => "ENCRYPTION_ERROR".to_owned(),
        }
    }

    /// The message shown to the user.
    pub fn get_err_msg(&self) -> (r: String)
        ensures
            r@ == self.spec_message(),
    {
        match self {
            UserAuthError::DatabaseError(m) => "Error from database: ".to_owned().concat(m.as_str()),
            UserAuthError::UserNotFound => "No user found with provided username or email".to_owned(),
            UserAuthError::UserAlreadyExists => "User already exists".to_owned(),
            UserAuthError::PasswordInvalid => "Password is invalid or incorrect".to_owned(),
            UserAuthError::EncryptionError(_) => "Error occurred during password encryption".to_owned(),
        }
    }

    /// The HTTP status of the error.
    pub fn get_response_code(&self) -> (r: u16)
        ensures
            r == self.spec_status(),
    {
        match self {
            UserAuthError::DatabaseError(_) => 500,
            UserAuthError::UserNotFound => 404,
            UserAuthError::UserAlreadyExists => 409,
            UserAuthError::PasswordInvalid => 401,
            UserAuthError::EncryptionError(_) => 500,
        }
    }

    /// The JSON body that reports the error.
    pub fn into_response_err(self) -> (r: JsonErrorResponse)
        ensures
            r.code@ == self.spec_code(),
            r.message@ == self.spec_message(),
    {
        JsonErrorResponse { code: self.get_err_code(), message: self.get_err_msg() }
    }
}

/// An error as the JSON API reports it.
#[derive(Debug, Clone)]
pub enum ResponseError {
    NotFound(JsonErrorResponse),
    GenericError,
    InternalServerError(JsonErrorResponse),
    DatabaseError(JsonErrorResponse),
    AuthError(UserAuthError),
    CSRFError,
}

impl ResponseError {
    pub open spec fn spec_status(&self) -> u16 {
        match self {
            ResponseError::NotFound(_) => 404,
            ResponseError::GenericError => 500,
            ResponseError::InternalServerError(_) => 500,
            ResponseError::DatabaseError(_) => 500,
            ResponseError::AuthError(e) => e.spec_status(),
            ResponseError::CSRFError => 401,
        }
    }

    /// The HTTP status of the response.
    pub fn get_http_status(&self) -> (r: u16)
        ensures
            r == self.spec_status(),
    {
        match self {
            ResponseError::NotFound(_) => 404,
            ResponseError::GenericError => 500,
            ResponseError::InternalServerError(_) => 500,
            ResponseError::DatabaseError(_) => 500,
            ResponseError::AuthError(e) => e.get_response_code(),
            ResponseError::CSRFError => 401,
        }
    }

    /// The JSON body of the response: the carried body, or a fixed one for the errors
    /// that carry none.
    pub fn into_res_err(self) -> (r: JsonErrorResponse)
        ensures
            self matches ResponseError::NotFound(e) ==> r == e,
            self matches ResponseError::InternalServerError(e) ==> r == e,
            self matches ResponseError::DatabaseError(e) ==> r == e,
            self matches ResponseError::AuthError(e) ==> r.code@ == e.spec_code() && r.message@ == e.spec_message(),
            self is GenericError ==> r.code@ == "INTERNAL_SERVER_ERROR"@ && r.message@ == "An unknown error occurred"@,
            self is CSRFError ==> r.code@ == "CSRF_VALIDATION_FAILED"@
                && r.message@ == "CSRF Token is invalid / expired or does not exist. Reload the form and try again"@,
    {
        match self {
            ResponseError::NotFound(e) => e,
            ResponseError::GenericError => JsonErrorResponse {
                code: "INTERNAL_SERVER_ERROR".to_owned(),
                message: "An unknown error occurred".to_owned(),
            },
            ResponseError::InternalServerError(e) => e,
            ResponseError::DatabaseError(e) => e,
            ResponseError::AuthError(e) => e.into_response_err(),
            ResponseError::CSRFError => JsonErrorResponse {
                code: "CSRF_VALIDATION_FAILED".to_owned(),
                message: "CSRF Token is invalid / expired or does not exist. Reload the form and try again".to_owned(),
            },
        }
    }
}

/// Checks a submitted form token against the one stored in the session. A match
/// consumes the stored token, so each token passes once; a mismatch leaves it.
pub fn validate_csrf(session_token: &mut Option<String>, form_token: &str) -> (r: bool)
    ensures
        r == (*old(session_token) matches Some(t) && t@ == form_token@),
        r ==> *final(session_token) is None,
        !r ==> *final(session_token) == *old(session_token),
{
    let submitted = form_token.to_owned();
    let matched = match &*session_token {
        Some(t) => t.eq(&submitted),
        None => false,
    };
    if matched {
        *session_token = None;
    }
    matched
}

/// Whether bcrypt accepts the password for the hash: `None` where the hash is malformed.
pub uninterp spec fn bcrypt_verdict(password: Seq<char>, hash: Seq<char>) -> Option<bool>;

/// Relies on bcrypt's `verify`: it decides from the password and the hash alone, and
/// fails only on a hash it cannot read.
#[verifier::external_body]
fn bcrypt_verify(password: &str, hash: &str) -> (r: Result<bool, String>)
    ensures
        r matches Ok(b) ==> bcrypt_verdict(password@, hash@) == Some(b),
        r is Err ==> bcrypt_verdict(password@, hash@) is None,
{
    bcrypt::verify(password, hash).map_err(|e| e.to_string())
}

/// Relies on bcrypt's `hash` with a random salt: a bcrypt hash is 60 characters, and
/// `verify` accepts the password for it.
#[verifier::external_body]
fn bcrypt_hash(password: &str, cost: u32) -> (r: Result<String, String>)
    ensures
        r matches Ok(h) ==> h@.len() == 60 && bcrypt_verdict(password@, h@) == Some(true),
{
    bcrypt::hash(password, cost).map_err(|e| e.to_string())
}

pub open spec fn without_password(u: UserModelWithPassword) -> UserModel {
    UserModel { id: u.id, username: u.username, email: u.email, created_at: u.created_at, name: u.name }
}

/// The outcome of a password login, given the account the lookup found.
pub open spec fn login_verdict(found: Option<UserModelWithPassword>, password: Seq<char>, skip_check: bool) -> Result<UserModel, UserAuthError> {
    match found {
        None => Err(UserAuthError::UserNotFound),
        Some(u) => match u.password {
            None => Err(UserAuthError::PasswordInvalid),
            Some(h) => if skip_check {
                Ok(without_password(u))
            } else {
                match bcrypt_verdict(password, h@) {
                    Some(true) => Ok(without_password(u)),
                    Some(false) => Err(UserAuthError::PasswordInvalid),
                    None => Err(UserAuthError::EncryptionError(arbitrary())),
                }
            },
        },
    }
}

/// Decides a password login: the account must exist and have a password, and the
/// password must match its hash unless checks are switched off for development.
pub fn check_login(found: Option<UserModelWithPassword>, password: &str, skip_check: bool) -> (r: Result<UserModel, UserAuthError>)
    ensures
        r is Ok <==> login_verdict(found, password@, skip_check) is Ok,
        r is Ok ==> r == login_verdict(found, password@, skip_check),
        r matches Err(e) ==> (e is EncryptionError) == (login_verdict(found, password@, skip_check)->Err_0 is EncryptionError),
        r matches Err(e) && !(e is EncryptionError) ==> r == login_verdict(found, password@, skip_check),
{
    let u = match found {
        Some(u) => u,
        None => return Err(UserAuthError::UserNotFound),
    };
    let hash = match &u.password {
        Some(h) => h.clone(),
        None => return Err(UserAuthError::PasswordInvalid),
    };
    if !skip_check {
        match bcrypt_verify(password, hash.as_str()) {
            Ok(true) => {},
            Ok(false) => return Err(UserAuthError::PasswordInvalid),
            Err(e) => return Err(UserAuthError::EncryptionError(e)),
        }
    }
    Ok(UserModel { id: u.id, username: u.username, email: u.email, created_at: u.created_at, name: u.name })
}

/// What a new password account is stored with: a fresh random id and the hash.
#[derive(Debug, Clone)]
pub struct LocalCredentials {
    pub id: String,
    pub password_hash: String,
}

/// Hashes the password of a new local account and gives it a random id.
pub fn local_credentials(plain_password: &str) -> (r: Result<LocalCredentials, UserAuthError>)
    ensures
        r matches Ok(c) ==> {
            &&& crate::identity::is_uuid_v4_text(c.id@)
            &&& c.password_hash@.len() == 60
            &&& bcrypt_verdict(plain_password@, c.password_hash@) == Some(true)
        },
        r matches Err(e) ==> e is EncryptionError,
{
    let password_hash = match bcrypt_hash(plain_password, ENCRYPTION_ROUNDS) {
        Ok(h) => h,
        Err(e) => return Err(UserAuthError::EncryptionError(e)),
    };
    let id = crate::identity::generate_id(None);
    Ok(LocalCredentials { id, password_hash })
}

} // verus!
