//! Process-wide configuration, built once at startup.
use vstd::prelude::*;

verus! {

/// Connection settings for the backing store and the token signing secret.
pub struct AppConfig {
    pub db_host: String,
    pub db_port: String,
    pub db_username: String,
    pub db_password: String,
    pub db_database: String,
    /// Symmetric key that signs and checks access tokens.
    pub jwt_secret: String,
}

/// `value` where it was given, else `fallback`.
fn or_default(value: Option<String>, fallback: &str) -> (r: String)
    ensures
        r@ == match value {
            Some(v) => v@,
            None => fallback@,
        },
{
    match value {
        Some(v) => v,
        None => fallback.to_string(),
    }
}

impl AppConfig {
    /// The configuration from the values found in the environment, each
    /// store setting falling back to its local default where it is absent.
    pub fn from_values(
        db_host: Option<String>,
        db_port: Option<String>,
        db_username: Option<String>,
        db_password: Option<String>,
        db_database: Option<String>,
        jwt_secret: String,
    ) -> (r: AppConfig)
        ensures
            r.db_host@ == (match db_host {
                Some(v) => v@,
                None => "localhost"@,
            }),
            r.db_port@ == (match db_port {
                Some(v) => v@,
                None => "3306"@,
            }),
            r.db_username@ == (match db_username {
                Some(v) => v@,
                None => "root"@,
            }),
            r.db_password@ == (match db_password {
                Some(v) => v@,
                None => "@Password123"@,
            }),
            r.db_database@ == (match db_database {
                Some(v) => v@,
                None => "bookstore"@,
            }),
            r.jwt_secret@ == jwt_secret@,
    {
        AppConfig {
            db_host: or_default(db_host, "localhost"),
            db_port: or_default(db_port, "3306"),
            db_username: or_default(db_username, "root"),
            db_password: or_default(db_password, "@Password123"),
            db_database: or_default(db_database, "bookstore"),
            jwt_secret,
        }
    }
}

} // verus!
