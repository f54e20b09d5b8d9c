//! Sign-in and sign-up: the decisions around the credential store, the
//! password hash and the token codec.
use vstd::prelude::*;

use crate::config::AppConfig;
use crate::response::{
    error_text, ErrorResponse, Response, SuccessResponse, STATUS_CREATED,
    STATUS_INTERNAL_SERVER_ERROR, STATUS_OK, STATUS_UNAUTHORIZED, STATUS_UNPROCESSABLE_ENTITY,
};
use crate::token::{hs256_token, is_compact, issue_token, unix_time_now, Claims, TOKEN_VALIDITY_SECS};

verus! {

/// Sign-in request body.
pub struct ReqSignIn {
    pub email: String,
    pub password: String,
}

/// Sign-in response body: the issued token.
pub struct ResSignIn {
    pub token: String,
}

/// Sign-up request body.
pub struct ReqSignUp {
    pub email: String,
    pub password: String,
    pub firstname: Option<String>,
    pub lastname: Option<String>,
}

/// A stored account as the credential store hands it back.
pub struct UserRecord {
    pub id: u32,
    pub email: String,
    /// The bcrypt hash of the account's password.
    pub password: String,
}

/// An account ready to be stored: the password is already hashed.
pub struct NewUser {
    pub email: String,
    pub password: String,
    pub firstname: Option<String>,
    pub lastname: Option<String>,
}

/// What `bcrypt::verify` says of `password` against `hash`: whether they
/// match, or `None` where `hash` cannot be read as a bcrypt hash.
pub uninterp spec fn bcrypt_verified(password: Seq<char>, hash: Seq<char>) -> Option<bool>;

#[verifier::external_type_specification]
#[verifier::external_body]
pub struct ExBcryptError(bcrypt::BcryptError);

/// Relies on `bcrypt::verify`: it re-hashes `password` with the salt and
/// cost recorded in `hash` and compares.
#[verifier::external_body]
fn bcrypt_verify(password: &str, hash: &str) -> (r: Result<bool, bcrypt::BcryptError>)
    ensures
        r is Ok <==> bcrypt_verified(password@, hash@) is Some,
        r is Ok ==> r->Ok_0 == bcrypt_verified(password@, hash@)->Some_0,
{
    bcrypt::verify(password, hash)
}

/// Relies on `bcrypt::hash` with `DEFAULT_COST`: a hash under a fresh random
/// salt, which `bcrypt::verify` accepts for the same password.
#[verifier::external_body]
fn bcrypt_hash(password: &str) -> (r: Result<String, bcrypt::BcryptError>)
    ensures
        r is Ok ==> bcrypt_verified(password@, r->Ok_0@) == Some(true),
{
    bcrypt::hash(password, bcrypt::DEFAULT_COST)
}

/// Outcome of checking a submitted password against the looked-up account.
pub enum CredentialCheck {
    /// The account of this id matches.
    Accepted(u32),
    /// No such account, or the password does not match.
    Rejected,
    /// The stored hash could not be read.
    Unreadable,
}

pub open spec fn record_view(record: Option<UserRecord>) -> Option<(u32, Seq<char>)> {
    match record {
        Some(u) => Some((u.id, u.password@)),
        None => None,
    }
}

/// The credential check of `password` against an account found by email
/// (`Some((id, hash))`) or against no account.
pub open spec fn credential_check(password: Seq<char>, account: Option<(u32, Seq<char>)>) -> CredentialCheck {
    match account {
        None => CredentialCheck::Rejected,
        Some((id, hash)) => match bcrypt_verified(password, hash) {
            None => CredentialCheck::Unreadable,
            Some(true) => CredentialCheck::Accepted(id),
            Some(false) => CredentialCheck::Rejected,
        },
    }
}

/// A wrong password for an existing account is answered exactly as an
/// email that has no account.
pub proof fn lemma_wrong_password_as_unknown_email(password: Seq<char>, id: u32, hash: Seq<char>)
    requires
        bcrypt_verified(password, hash) == Some(false),
    ensures
        credential_check(password, Some((id, hash))) == credential_check(password, None),
{
}

pub open spec fn is_invalid_credentials(e: ErrorResponse) -> bool {
    e.status() == STATUS_UNAUTHORIZED && e.message() == "Invalid credentials"@
}

/// Checks `password` against the account found by email, if any: the
/// account's id where it matches, one generic 401 where there is no account
/// or the password is wrong, and 500 where the stored hash is unreadable.
pub fn check_credentials(password: &str, record: Option<UserRecord>) -> (r: Result<u32, ErrorResponse>)
    ensures
        match credential_check(password@, record_view(record)) {
            CredentialCheck::Accepted(id) => r == Ok::<u32, ErrorResponse>(id),
            CredentialCheck::Rejected => r is Err && is_invalid_credentials(r->Err_0),
            CredentialCheck::Unreadable => r is Err && r->Err_0.status()
                == STATUS_INTERNAL_SERVER_ERROR,
        },
{
    let user = match record {
        Some(u) => u,
        None => {
            return Err(ErrorResponse::new(STATUS_UNAUTHORIZED, "Invalid credentials".to_string()));
        },
    };
    match bcrypt_verify(password, user.password.as_str()) {
        Ok(true) => Ok(user.id),
        Ok(false) => Err(ErrorResponse::new(STATUS_UNAUTHORIZED, "Invalid credentials".to_string())),
        Err(e) => Err(ErrorResponse::from(error_text(&e))),
    }
}

/// The claim set issued at sign-in at Unix time `now`.
pub fn new_claims(sub: u32, now: u64) -> (r: Claims)
    requires
        now <= u64::MAX - TOKEN_VALIDITY_SECS,
    ensures
        r.sub == sub,
        r.role@ == "user"@,
        r.exp == now + TOKEN_VALIDITY_SECS,
{
    Claims { sub, role: "user".to_string(), exp: now + TOKEN_VALIDITY_SECS }
}

/// `r` is the 200 answer that carries the token of the account `id` with
/// expiry `exp`, signed under `secret`.
pub open spec fn signed_in(r: Response<ResSignIn>, secret: Seq<char>, id: u32, exp: u64) -> bool {
    r is Ok && r->Ok_0.status() == STATUS_OK && r->Ok_0.0.1.token@ == hs256_token(
        secret,
        id,
        "user"@,
        exp,
    ) && is_compact(r->Ok_0.0.1.token@)
}

/// Sign-in at Unix time `now`, given what looking the email up returned
/// (or the store failure's description). A store failure is a 500; no
/// account and a wrong password are the same 401; an unreadable stored hash
/// is a 500; a match is 200 with a token for the account, valid for four
/// hours.
pub fn sign_in_at(config: &AppConfig, req: &ReqSignIn, lookup: Result<Option<UserRecord>, String>, now: u64) -> (r: Response<ResSignIn>)
    requires
        now <= u64::MAX - TOKEN_VALIDITY_SECS,
    ensures
        lookup is Err ==> r is Err && r->Err_0.status() == STATUS_INTERNAL_SERVER_ERROR
            && r->Err_0.message() == lookup->Err_0@,
        lookup is Ok ==> match credential_check(req.password@, record_view(lookup->Ok_0)) {
            CredentialCheck::Accepted(id) => signed_in(
                r,
                config.jwt_secret@,
                id,
                (now + TOKEN_VALIDITY_SECS) as u64,
            ),
            CredentialCheck::Rejected => r is Err && is_invalid_credentials(r->Err_0),
            CredentialCheck::Unreadable => r is Err && r->Err_0.status()
                == STATUS_INTERNAL_SERVER_ERROR,
        },
{
    let record = match lookup {
        Ok(record) => record,
        Err(e) => {
            return Err(ErrorResponse::from(e));
        },
    };
    let id = check_credentials(req.password.as_str(), record)?;
    let token = issue_token(config.jwt_secret.as_str(), &new_claims(id, now));
    Ok(SuccessResponse((STATUS_OK, ResSignIn { token })))
}

/// Sign-in at the current time: as [`sign_in_at`] at the instant the clock
/// was read. Where the clock gives no usable time, the same store failures
/// and refusals, and a 500 in place of a token.
pub fn sign_in(config: &AppConfig, req: &ReqSignIn, lookup: Result<Option<UserRecord>, String>) -> (r: Response<ResSignIn>)
    ensures
        lookup is Err ==> r is Err && r->Err_0.status() == STATUS_INTERNAL_SERVER_ERROR
            && r->Err_0.message() == lookup->Err_0@,
        lookup is Ok ==> match credential_check(req.password@, record_view(lookup->Ok_0)) {
            CredentialCheck::Accepted(id) => (r is Ok ==> exists|now: u64|
                now <= u64::MAX - TOKEN_VALIDITY_SECS && #[trigger] signed_in(
                    r,
                    config.jwt_secret@,
                    id,
                    (now + TOKEN_VALIDITY_SECS) as u64,
                )) && (r is Err ==> r->Err_0.status() == STATUS_INTERNAL_SERVER_ERROR),
            CredentialCheck::Rejected => r is Err && is_invalid_credentials(r->Err_0),
            CredentialCheck::Unreadable => r is Err && r->Err_0.status()
                == STATUS_INTERNAL_SERVER_ERROR,
        },
{
    let ghost found = lookup;
    if let Some(now) = unix_time_now() {
        if now <= u64::MAX - TOKEN_VALIDITY_SECS {
            let r = sign_in_at(config, req, lookup, now);
            proof {
                if found is Ok {
                    if let CredentialCheck::Accepted(id) = credential_check(
                        req.password@,
                        record_view(found->Ok_0),
                    ) {
                        assert(signed_in(r, config.jwt_secret@, id, (now + TOKEN_VALIDITY_SECS) as u64));
                    }
                }
            }
            return r;
        }
    }
    let record = match lookup {
        Ok(record) => record,
        Err(e) => {
            return Err(ErrorResponse::from(e));
        },
    };
    let _ = check_credentials(req.password.as_str(), record)?;
    Err(ErrorResponse::from("the system clock gives no usable time".to_string()))
}

/// Sign-up, given what looking the email up returned: 422 where an account
/// already has this email, 500 on a store failure; otherwise the account to
/// store, with the password replaced by a bcrypt hash that verifies it (or
/// 500 where hashing fails).
pub fn sign_up(req: &ReqSignUp, existing: Result<Option<UserRecord>, String>) -> (r: Result<NewUser, ErrorResponse>)
    ensures
        existing is Err ==> r is Err && r->Err_0.status() == STATUS_INTERNAL_SERVER_ERROR
            && r->Err_0.message() == existing->Err_0@,
        existing matches Ok(Some(_)) ==> r is Err && r->Err_0.status() == STATUS_UNPROCESSABLE_ENTITY
            && r->Err_0.message() == "An account exists with that email"@,
        existing matches Ok(None) ==> (r is Ok ==> r->Ok_0.email@ == req.email@
            && bcrypt_verified(req.password@, r->Ok_0.password@) == Some(true)
            && option_same(r->Ok_0.firstname, req.firstname)
            && option_same(r->Ok_0.lastname, req.lastname)) && (r is Err ==> r->Err_0.status()
            == STATUS_INTERNAL_SERVER_ERROR),
{
    match existing {
        Err(e) => Err(ErrorResponse::from(e)),
        Ok(Some(_)) => Err(
            ErrorResponse::new(
                STATUS_UNPROCESSABLE_ENTITY,
                "An account exists with that email".to_string(),
            ),
        ),
        Ok(None) => match bcrypt_hash(req.password.as_str()) {
            Ok(hash) => Ok(
                NewUser {
                    email: req.email.clone(),
                    password: hash,
                    firstname: clone_option(&req.firstname),
                    lastname: clone_option(&req.lastname),
                },
            ),
            Err(e) => Err(ErrorResponse::from(error_text(&e))),
        },
    }
}

/// The answer to sign-up once the store has tried to insert the account.
pub fn sign_up_result(inserted: Result<(), String>) -> (r: Response<String>)
    ensures
        inserted is Ok ==> r is Ok && r->Ok_0.status() == STATUS_CREATED && r->Ok_0.0.1@
            == "Account created"@,
        inserted is Err ==> r is Err && r->Err_0.status() == STATUS_INTERNAL_SERVER_ERROR
            && r->Err_0.message() == inserted->Err_0@,
{
    match inserted {
        Ok(()) => Ok(SuccessResponse((STATUS_CREATED, "Account created".to_string()))),
        Err(e) => Err(ErrorResponse::from(e)),
    }
}

pub open spec fn option_same(a: Option<String>, b: Option<String>) -> bool {
    match (a, b) {
        (Some(x), Some(y)) => x@ == y@,
        (None, None) => true,
        _ => false,
    }
}

fn clone_option(o: &Option<String>) -> (r: Option<String>)
    ensures
        option_same(r, *o),
{
    match o {
        Some(s) => Some(s.clone()),
        None => None,
    }
}

} // verus!
