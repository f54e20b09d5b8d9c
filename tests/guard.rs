use bookstore::auth::AuthenticatedUser;
use bookstore::config::AppConfig;
use bookstore::token::{issue_token, Claims};

fn config(secret: &str) -> AppConfig {
    AppConfig::from_values(None, None, None, None, None, secret.to_string())
}

fn token_for(secret: &str, sub: u32, exp: u64) -> String {
    issue_token(secret, &Claims { sub, role: "user".to_string(), exp })
}

#[test]
fn missing_header_is_unauthorized() {
    let err = AuthenticatedUser::from_token_at(&config("k"), None, 0).err().unwrap();
    assert_eq!(err.0 .0, 401);
    assert_eq!(err.0 .1.message, "token absent");
}

#[test]
fn missing_header_is_unauthorized_at_current_time() {
    let err = AuthenticatedUser::from_request(&config("k"), None).err().unwrap();
    assert_eq!(err.0 .0, 401);
    assert_eq!(err.0 .1.message, "token absent");
}

#[test]
fn valid_token_admits_its_subject() {
    let token = token_for("k", 17, 500);
    let user = AuthenticatedUser::from_token_at(&config("k"), Some(&token), 499).ok().unwrap();
    assert_eq!(user.id, 17);
}

#[test]
fn valid_token_admits_its_subject_at_current_time() {
    let token = token_for("k", 23, u64::MAX);
    let user = AuthenticatedUser::from_request(&config("k"), Some(&token)).ok().unwrap();
    assert_eq!(user.id, 23);
}

#[test]
fn expired_token_is_unauthorized() {
    let token = token_for("k", 17, 500);
    let err = AuthenticatedUser::from_token_at(&config("k"), Some(&token), 500).err().unwrap();
    assert_eq!(err.0 .0, 401);
    assert_eq!(err.0 .1.message, "Invalid token");
    let err = AuthenticatedUser::from_request(&config("k"), Some(&token)).err().unwrap();
    assert_eq!(err.0 .0, 401);
}

#[test]
fn garbage_or_foreign_token_is_unauthorized() {
    let foreign = token_for("other", 17, u64::MAX);
    for token in ["garbage", foreign.as_str()] {
        let err = AuthenticatedUser::from_token_at(&config("k"), Some(token), 0).err().unwrap();
        assert_eq!(err.0 .0, 401);
        assert_eq!(err.0 .1.message, "Invalid token");
    }
}

#[test]
fn config_falls_back_to_local_defaults() {
    let c = config("s");
    assert_eq!(c.db_host, "localhost");
    assert_eq!(c.db_port, "3306");
    assert_eq!(c.db_username, "root");
    assert_eq!(c.db_password, "@Password123");
    assert_eq!(c.db_database, "bookstore");
    assert_eq!(c.jwt_secret, "s");
}

#[test]
fn config_keeps_given_values() {
    let c = AppConfig::from_values(
        Some("db".to_string()),
        Some("5432".to_string()),
        Some("me".to_string()),
        Some("pw".to_string()),
        Some("shop".to_string()),
        "s".to_string(),
    );
    assert_eq!(c.db_host, "db");
    assert_eq!(c.db_port, "5432");
    assert_eq!(c.db_username, "me");
    assert_eq!(c.db_password, "pw");
    assert_eq!(c.db_database, "shop");
}

#[test]
fn root_route_greets() {
    let ok = bookstore::index().ok().unwrap();
    assert_eq!(ok.0 .0, 200);
    assert_eq!(ok.0 .1, "Hello, World");
}
