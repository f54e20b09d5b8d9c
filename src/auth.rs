//! The request guard of protected routes.
use vstd::prelude::*;

use crate::config::AppConfig;
use crate::response::{ErrorResponse, STATUS_INTERNAL_SERVER_ERROR, STATUS_UNAUTHORIZED};
use crate::token::{token_verdict, unix_time_now, verify_token};

verus! {

/// The identity a verified token proves, handed to a protected handler.
pub struct AuthenticatedUser {
    pub id: u32,
}

/// The guard's verdict on the `token` header at Unix time `now`.
pub open spec fn guard_admits(secret: Seq<char>, token: Option<Seq<char>>, now: u64, id: u32) -> bool {
    match token {
        None => false,
        Some(t) => token_verdict(secret, t, now) matches Ok(c) && c.sub == id,
    }
}

impl AuthenticatedUser {
    /// Decides a request by its `token` header at Unix time `now`. No
    /// header, or a token that does not verify, is refused with 401; a
    /// verified token admits its subject.
    pub fn from_token_at(config: &AppConfig, token: Option<&str>, now: u64) -> (r: Result<AuthenticatedUser, ErrorResponse>)
        ensures
            token is None ==> r is Err && r->Err_0.status() == STATUS_UNAUTHORIZED
                && r->Err_0.message() == "token absent"@,
            token is Some ==> match token_verdict(config.jwt_secret@, token->Some_0@, now) {
                Ok(c) => r is Ok && r->Ok_0.id == c.sub,
                Err(_) => r is Err && r->Err_0.status() == STATUS_UNAUTHORIZED
                    && r->Err_0.message() == "Invalid token"@,
            },
    {
        match token {
            None => Err(ErrorResponse::new(STATUS_UNAUTHORIZED, "token absent".to_string())),
            Some(t) => match verify_token(config.jwt_secret.as_str(), t, now) {
                Ok(claims) => Ok(AuthenticatedUser { id: claims.sub }),
                Err(_) => Err(ErrorResponse::new(STATUS_UNAUTHORIZED, "Invalid token".to_string())),
            },
        }
    }

    /// Decides a request by its `token` header at the current time. No
    /// header is refused with 401 before anything else; an admitted subject
    /// is one the token verifies to at some instant; a refusal is 401, or
    /// 500 where the system clock cannot be read.
    pub fn from_request(config: &AppConfig, token: Option<&str>) -> (r: Result<AuthenticatedUser, ErrorResponse>)
        ensures
            token is None ==> r is Err && r->Err_0.status() == STATUS_UNAUTHORIZED
                && r->Err_0.message() == "token absent"@,
            r is Ok ==> exists|now: u64|
                #[trigger] guard_admits(config.jwt_secret@, Some(token->Some_0@), now, r->Ok_0.id),
            r is Err ==> r->Err_0.status() == STATUS_UNAUTHORIZED || r->Err_0.status()
                == STATUS_INTERNAL_SERVER_ERROR,
    {
        if token.is_none() {
            return Err(ErrorResponse::new(STATUS_UNAUTHORIZED, "token absent".to_string()));
        }
        match unix_time_now() {
            None => Err(
                ErrorResponse::new(
                    STATUS_INTERNAL_SERVER_ERROR,
                    "system clock is before the Unix epoch".to_string(),
                ),
            ),
            Some(now) => {
                let r = Self::from_token_at(config, token, now);
                assert(r is Ok ==> guard_admits(config.jwt_secret@, Some(token->Some_0@), now, r->Ok_0.id));
                r
            },
        }
    }
}

} // verus!
