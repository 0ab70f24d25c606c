//! Users: what the relational store holds of them and what requests about
//! them must satisfy.

use vstd::prelude::*;
use vstd::string::*;
use scrypt::password_hash::PasswordHasher;
use crate::auth::{password_verdict, phc_parse_error, scrypt_accepts, verify_password};
use crate::error_app::{AppError, AppErrorView, AppMsgError, AppMsgErrorView};
use crate::ident::{is_random_uuid, random_uuid};
use crate::text::{lowercase, to_lowercase};

verus! {

/// A user row of the relational store. Times are milliseconds since the
/// Unix epoch.
#[derive(Debug)]
pub struct User {
    pub id: i32,
    pub uuid: u128,
    pub username: String,
    pub email: String,
    pub password: String,
    pub created_at: Option<i64>,
    pub updated_at: Option<i64>,
    pub deleted_at: Option<i64>,
}

/// A request to register a user.
#[derive(Debug)]
pub struct UserCreate {
    pub username: String,
    pub email: String,
    pub password: String,
    pub confirm_password: String,
}

/// A user as the API shows it.
#[derive(Debug)]
pub struct UserResponse {
    pub uuid: u128,
    pub username: String,
    pub email: String,
}

/// What a lookup of one user may filter by.
#[derive(Debug)]
pub struct UserFilter {
    pub uuid: Option<u128>,
    pub email: Option<String>,
}

/// What a request may change of a user.
#[derive(Debug)]
pub struct UserUpdate {
    pub username: Option<String>,
    pub email: Option<String>,
}

/// A user that is about to be stored.
#[derive(Debug)]
pub struct UserInsert {
    pub uuid: u128,
    pub username: String,
    pub email: String,
    pub password_hash: String,
}

impl UserFilter {
    /// Whether the filter names nothing to look for.
    pub fn is_empty(&self) -> (empty: bool)
        ensures
            empty == (self.uuid is None && self.email is None),
    {
        self.uuid.is_none() && self.email.is_none()
    }
}

impl UserUpdate {
    /// Whether the request changes nothing.
    pub fn is_empty(&self) -> (empty: bool)
        ensures
            empty == (self.username is None && self.email is None),
    {
        self.username.is_none() && self.email.is_none()
    }

    /// The new name, if the request gives one.
    pub fn username(&self) -> (r: Option<&String>)
        ensures
            match r {
                Some(name) => self.username == Some(*name),
                None => self.username is None,
            },
    {
        self.username.as_ref()
    }

    /// The new e-mail address, if the request gives one.
    pub fn email(&self) -> (r: Option<&String>)
        ensures
            match r {
                Some(email) => self.email == Some(*email),
                None => self.email is None,
            },
    {
        self.email.as_ref()
    }
}

impl UserCreate {
    /// The request with name and e-mail address in lower case, as they are
    /// stored.
    pub fn normalized(&self) -> (r: UserCreate)
        ensures
            r.username@ == lowercase(self.username@),
            r.email@ == lowercase(self.email@),
            r.password@ == self.password@,
            r.confirm_password@ == self.confirm_password@,
    {
        UserCreate {
            username: to_lowercase(self.username.as_str()),
            email: to_lowercase(self.email.as_str()),
            password: self.password.clone(),
            confirm_password: self.confirm_password.clone(),
        }
    }
}

/// A fresh salt for hashing, drawn with
/// `password_hash::SaltString::generate` from the operating system's random
/// numbers. Nothing is claimed of which salt comes back.
#[verifier::external_body]
pub(crate) fn fresh_salt() -> (salt: String) {
    scrypt::password_hash::SaltString::generate(&mut scrypt::password_hash::rand_core::OsRng).as_str().to_owned()
}

/// The cost that passwords are hashed at for storing: the binary logarithm
/// of the number of rounds, as the hashing library recommends it.
pub const PASSWORD_COST: u8 = 17;

/// What the `hash_password_customized` of `scrypt::Scrypt` makes of
/// `password` with the salt `salt` at the cost `cost` and the library's
/// recommended block size, parallelism and length: the PHC string, or the
/// words of its error.
pub uninterp spec fn scrypt_hash_of(password: Seq<char>, salt: Seq<char>, cost: u8) -> Result<
    Seq<char>,
    Seq<char>,
>;

/// Hashes a password with the `hash_password_customized` of `scrypt::Scrypt`,
/// at a cost up to the recommended one, which is what its `hash_password`
/// uses. The contract names the outcome and claims of a hash that comes back
/// that it reads as a PHC string and that `verify_password` accepts the
/// password for it.
#[verifier::external_body]
pub(crate) fn scrypt_hash(password: &str, salt: &str, cost: u8) -> (r: Result<String, String>)
    requires
        1 <= cost <= PASSWORD_COST,
    ensures
        match r {
            Ok(h) => scrypt_hash_of(password@, salt@, cost) == Ok::<Seq<char>, Seq<char>>(h@)
                && phc_parse_error(h@) is None && scrypt_accepts(password@, h@),
            Err(e) => scrypt_hash_of(password@, salt@, cost) == Err::<Seq<char>, Seq<char>>(e@),
        },
{
    let salt = scrypt::password_hash::SaltString::from_b64(salt).map_err(|e| e.to_string())?;
    let params = scrypt::Params::new(
        cost,
        scrypt::Params::RECOMMENDED_R,
        scrypt::Params::RECOMMENDED_P,
        scrypt::Params::RECOMMENDED_LEN,
    ).map_err(|e| e.to_string())?;
    scrypt::Scrypt.hash_password_customized(password.as_bytes(), None, None, params, &salt).map(
        |h| h.to_string(),
    ).map_err(|e| e.to_string())
}

/// The error of a hashing that failed.
pub open spec fn scrypt_error(detail: Seq<char>) -> AppErrorView {
    AppErrorView::ScryptError(
        AppMsgErrorView { api_msg_error: "Scrypt error occurred"@, log_msg_error: detail },
    )
}

/// The stored form of a password, from what hashing it gave.
pub fn password_hashed(hashed: Result<String, String>) -> (r: Result<String, AppError>)
    ensures
        match hashed {
            Ok(h) => r matches Ok(stored) && stored@ == h@,
            Err(detail) => r matches Err(e) && e@ == scrypt_error(detail@),
        },
{
    match hashed {
        Ok(h) => Ok(h),
        Err(detail) => Err(
            AppError::ScryptError(
                AppMsgError {
                    api_msg_error: "Scrypt error occurred".to_owned(),
                    log_msg_error: detail,
                },
            ),
        ),
    }
}

/// Hashes a password with a fresh random salt at the cost `cost`, which
/// must be at least 1 and at most the cost that passwords are stored at. A
/// hash that comes back is one that the password is accepted for.
pub fn hash_password(password: &str, cost: u8) -> (r: Result<String, AppError>)
    ensures
        match r {
            Ok(h) => 1 <= cost <= PASSWORD_COST && phc_parse_error(h@) is None && scrypt_accepts(
                password@,
                h@,
            ),
            Err(e) => exists|detail: Seq<char>| e@ == scrypt_error(detail),
        },
        !(1 <= cost <= PASSWORD_COST) ==> (r is Err && r->Err_0@ == scrypt_error(
            "Cost out of range"@,
        )),
{
    if cost < 1 || cost > PASSWORD_COST {
        return password_hashed(Err("Cost out of range".to_owned()));
    }
    let salt = fresh_salt();
    let hashed = scrypt_hash(password, salt.as_str(), cost);
    let ghost outcome = hashed;
    let r = password_hashed(hashed);
    proof {
        if outcome is Err {
            assert(r->Err_0@ == scrypt_error(outcome->Err_0@));
        }
    }
    r
}

/// Hashes a password for storing, with a fresh random salt. A hash that
/// comes back is one that the password is accepted for.
pub fn get_password_hash(password: &String) -> (r: Result<String, AppError>)
    ensures
        match r {
            Ok(h) => phc_parse_error(h@) is None && scrypt_accepts(password@, h@),
            Err(e) => exists|detail: Seq<char>| e@ == scrypt_error(detail),
        },
{
    hash_password(password.as_str(), PASSWORD_COST)
}

/// How many rows a count found, or `None` where it found none.
pub fn user_count(count: Option<i64>) -> (r: Option<i64>)
    ensures
        r == (match count {
            Some(n) => if n == 0 {
                None
            } else {
                Some(n)
            },
            None => None,
        }),
{
    match count {
        Some(n) => if n == 0 {
            None
        } else {
            Some(n)
        },
        None => None,
    }
}

/// The first reason to refuse a request to register a user, if there is
/// one: the two passwords differ, or the e-mail address is registered
/// already.
pub open spec fn user_rejection(user: UserCreate, registered: Option<i64>) -> Option<AppErrorView> {
    if user.password@ != user.confirm_password@ {
        Some(
            AppErrorView::UnprocessableEntity(
                AppMsgErrorView {
                    api_msg_error: "Password and confirm_password do not match"@,
                    log_msg_error: "Password and confirm password do not match, password: "@
                        + user.password@ + ", confirm_password: "@ + user.confirm_password@,
                },
            ),
        )
    } else if registered is Some {
        Some(
            AppErrorView::ConstraintViolation(
                AppMsgErrorView {
                    api_msg_error: "email already registered: "@ + user.email@,
                    log_msg_error: "email already registered: "@ + user.email@,
                },
            ),
        )
    } else {
        None
    }
}

/// Checks a request to register a user. `registered` is how many users hold
/// the e-mail address already, `None` for none.
pub fn user_checked(user: &UserCreate, registered: Option<i64>) -> (r: Result<(), AppError>)
    ensures
        match r {
            Ok(()) => user_rejection(*user, registered) is None,
            Err(e) => user_rejection(*user, registered) == Some(e@),
        },
{
    if user.password != user.confirm_password {
        return Err(
            AppError::UnprocessableEntity(
                AppMsgError {
                    api_msg_error: "Password and confirm_password do not match".to_owned(),
                    log_msg_error: "Password and confirm password do not match, password: ".to_owned().concat(
                        user.password.as_str(),
                    ).concat(", confirm_password: ").concat(user.confirm_password.as_str()),
                },
            ),
        );
    }
    if registered.is_some() {
        return Err(
            AppError::ConstraintViolation(
                AppMsgError {
                    api_msg_error: "email already registered: ".to_owned().concat(
                        user.email.as_str(),
                    ),
                    log_msg_error: "email already registered: ".to_owned().concat(
                        user.email.as_str(),
                    ),
                },
            ),
        );
    }
    Ok(())
}

/// What is stored for a user who registers under the identifier `uuid` with
/// the hashed password `password_hash`: name and e-mail address in lower
/// case.
pub fn user_insert(user: &UserCreate, uuid: u128, password_hash: String) -> (u: UserInsert)
    ensures
        u.uuid == uuid,
        u.username@ == lowercase(user.username@),
        u.email@ == lowercase(user.email@),
        u.password_hash == password_hash,
{
    let stored = user.normalized();
    UserInsert { uuid, username: stored.username, email: stored.email, password_hash }
}

/// Checks a request to register a user and puts together what is to be
/// stored: a fresh random identifier, name and e-mail address in lower
/// case, and the hash of the password.
pub fn user_create(user: &UserCreate, registered: Option<i64>) -> (r: Result<UserInsert, AppError>)
    ensures
        match r {
            Ok(u) => {
                &&& user_rejection(*user, registered) is None
                &&& is_random_uuid(u.uuid)
                &&& u.username@ == lowercase(user.username@)
                &&& u.email@ == lowercase(user.email@)
                &&& phc_parse_error(u.password_hash@) is None
                &&& scrypt_accepts(user.password@, u.password_hash@)
            },
            Err(e) => match user_rejection(*user, registered) {
                Some(reason) => e@ == reason,
                None => exists|detail: Seq<char>| e@ == scrypt_error(detail),
            },
        },
{
    match user_checked(user, registered) {
        Err(e) => {
            return Err(e);
        },
        Ok(()) => {},
    }
    let password_hash = match get_password_hash(&user.password) {
        Ok(h) => h,
        Err(e) => {
            return Err(e);
        },
    };
    Ok(user_insert(user, random_uuid(), password_hash))
}

/// Refuses a lookup that names nothing to look for.
pub fn user_get_filter(filter: &UserFilter) -> (r: Result<(), AppError>)
    ensures
        match r {
            Ok(()) => filter.uuid is Some || filter.email is Some,
            Err(e) => filter.uuid is None && filter.email is None && e@ == AppErrorView::BadRequest(
                "At least one filter parameter must be provided: 'uuid' or 'email'"@,
            ),
        },
{
    if filter.is_empty() {
        Err(
            AppError::bad_request(
                "At least one filter parameter must be provided: 'uuid' or 'email'",
            ),
        )
    } else {
        Ok(())
    }
}

/// The user that a lookup found: the first row, or a not-found error where
/// there is none.
pub fn get_user(rows: Vec<UserResponse>) -> (r: Result<UserResponse, AppError>)
    ensures
        match r {
            Ok(u) => rows@.len() > 0 && u == rows@[0],
            Err(e) => rows@.len() == 0 && e@ == AppErrorView::NotFound(
                AppMsgErrorView { api_msg_error: "User not found"@, log_msg_error: "User not found"@ },
            ),
        },
{
    let mut rows = rows;
    if rows.len() == 0 {
        Err(AppError::not_found("User not found".to_owned(), "User not found".to_owned()))
    } else {
        Ok(rows.swap_remove(0))
    }
}

/// Refuses a request that changes nothing of a user.
pub fn user_update_checked(user: &UserUpdate) -> (r: Result<(), AppError>)
    ensures
        match r {
            Ok(()) => user.username is Some || user.email is Some,
            Err(e) => user.username is None && user.email is None && e@ == AppErrorView::BadRequest(
                "At least one json field must be provided: 'username' or 'email'"@,
            ),
        },
{
    if user.is_empty() {
        Err(AppError::bad_request("At least one json field must be provided: 'username' or 'email'"))
    } else {
        Ok(())
    }
}

/// The name and the e-mail address that a user has after an update, in
/// lower case: those of the request where it gives them, those the user had
/// where it does not.
pub fn user_update(user: &UserUpdate, current: &UserResponse) -> (r: (String, String))
    ensures
        r.0@ == lowercase(
            match user.username {
                Some(name) => name@,
                None => current.username@,
            },
        ),
        r.1@ == lowercase(
            match user.email {
                Some(email) => email@,
                None => current.email@,
            },
        ),
{
    let username = match user.username() {
        Some(name) => to_lowercase(name.as_str()),
        None => to_lowercase(current.username.as_str()),
    };
    let email = match user.email() {
        Some(email) => to_lowercase(email.as_str()),
        None => to_lowercase(current.email.as_str()),
    };
    (username, email)
}

/// The first reason to refuse a request to delete the user `user_uuid` with
/// `password`, where `user` is the row found for the e-mail address of the
/// request: the password does not fit, or the row is another user's.
pub open spec fn delete_rejection(user: User, user_uuid: u128, password: Seq<char>) -> Option<
    AppErrorView,
> {
    let verdict = password_verdict(
        password,
        user.password@,
        phc_parse_error(user.password@),
        scrypt_accepts(password, user.password@),
    );
    if verdict is Some {
        verdict
    } else if user.uuid != user_uuid {
        Some(AppErrorView::BadRequest("Inconsistent data"@))
    } else {
        None
    }
}

/// Checks a request to delete the user `user_uuid`: the password must be
/// that of `user`, the row found for the e-mail address of the request, and
/// that row must be the user the request names.
pub fn user_soft_delete(user: &User, user_uuid: u128, password: &str) -> (r: Result<(), AppError>)
    ensures
        match r {
            Ok(()) => delete_rejection(*user, user_uuid, password@) is None,
            Err(e) => delete_rejection(*user, user_uuid, password@) == Some(e@),
        },
{
    match verify_password(password, user.password.as_str()) {
        Err(e) => {
            return Err(e);
        },
        Ok(()) => {},
    }
    if user.uuid != user_uuid {
        return Err(AppError::bad_request("Inconsistent data"));
    }
    Ok(())
}

} // verus!
