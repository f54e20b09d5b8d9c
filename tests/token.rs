use bookstore::token::{issue_token, verify_token, Claims, TokenError, TOKEN_VALIDITY_SECS};

const SECRET: &str = "test-signing-secret";

fn claims(sub: u32, role: &str, exp: u64) -> Claims {
    Claims { sub, role: role.to_string(), exp }
}

fn flip(token: &str, at: usize) -> String {
    let mut chars: Vec<char> = token.chars().collect();
    chars[at] = if chars[at] == 'A' { 'B' } else { 'A' };
    chars.into_iter().collect()
}

#[test]
fn validity_window_is_four_hours() {
    assert_eq!(TOKEN_VALIDITY_SECS, 14400);
}

#[test]
fn issued_token_round_trips_before_expiry() {
    let token = issue_token(SECRET, &claims(42, "user", 2_000));
    let back = verify_token(SECRET, &token, 1_999).unwrap();
    assert_eq!(back.sub, 42);
    assert_eq!(back.role, "user");
    assert_eq!(back.exp, 2_000);
}

#[test]
fn issued_token_keeps_unusual_role_text() {
    let token = issue_token(SECRET, &claims(0, "r\u{e9}le \"q\"", u64::MAX));
    let back = verify_token(SECRET, &token, 0).unwrap();
    assert_eq!(back.sub, 0);
    assert_eq!(back.role, "r\u{e9}le \"q\"");
    assert_eq!(back.exp, u64::MAX);
}

#[test]
fn issued_token_is_compact_and_not_the_claims() {
    let token = issue_token(SECRET, &claims(42, "user", 2_000));
    assert_eq!(token.split('.').count(), 3);
    assert!(!token.contains("user"));
    assert!(token.chars().all(|c| c.is_ascii_alphanumeric() || c == '-' || c == '_' || c == '.'));
}

#[test]
fn issuing_twice_gives_the_same_token() {
    let a = issue_token(SECRET, &claims(5, "user", 99));
    let b = issue_token(SECRET, &claims(5, "user", 99));
    assert_eq!(a, b);
}

#[test]
fn token_expires_at_its_expiry_time() {
    let token = issue_token(SECRET, &claims(42, "user", 2_000));
    assert_eq!(verify_token(SECRET, &token, 2_000).err(), Some(TokenError::Expired));
    assert_eq!(verify_token(SECRET, &token, 2_001).err(), Some(TokenError::Expired));
    assert_eq!(verify_token(SECRET, &token, u64::MAX).err(), Some(TokenError::Expired));
}

#[test]
fn past_expiry_is_classified_as_expired() {
    let token = issue_token(SECRET, &claims(1, "user", 0));
    assert_eq!(verify_token(SECRET, &token, 0).err(), Some(TokenError::Expired));
}

#[test]
fn flipping_any_signature_character_is_rejected() {
    let token = issue_token(SECRET, &claims(42, "user", 2_000));
    let start = token.rfind('.').unwrap() + 1;
    for at in start..token.len() {
        let tampered = flip(&token, at);
        assert_ne!(tampered, token);
        assert_eq!(verify_token(SECRET, &tampered, 0).err(), Some(TokenError::Invalid));
    }
}

#[test]
fn flipping_a_payload_character_is_rejected() {
    let token = issue_token(SECRET, &claims(42, "user", 2_000));
    let at = token.find('.').unwrap() + 2;
    assert_eq!(verify_token(SECRET, &flip(&token, at), 0).err(), Some(TokenError::Invalid));
}

#[test]
fn another_secret_is_rejected() {
    let token = issue_token(SECRET, &claims(42, "user", 2_000));
    assert_eq!(verify_token("other-secret", &token, 0).err(), Some(TokenError::Invalid));
}

#[test]
fn malformed_tokens_are_rejected() {
    for bad in ["", "abc", "a.b", "a.b.c", "...", "not a token at all"] {
        assert_eq!(verify_token(SECRET, bad, 0).err(), Some(TokenError::Invalid));
    }
}

#[test]
fn truncated_token_is_rejected() {
    let token = issue_token(SECRET, &claims(42, "user", 2_000));
    assert_eq!(verify_token(SECRET, &token[..token.len() - 1], 0).err(), Some(TokenError::Invalid));
}

#[test]
fn writing_a_dot_into_the_signature_is_rejected() {
    let token = issue_token(SECRET, &claims(42, "user", 2_000));
    let start = token.rfind('.').unwrap() + 1;
    for at in [start, start + 5, token.len() - 1] {
        let mut chars: Vec<char> = token.chars().collect();
        chars[at] = '.';
        let tampered: String = chars.into_iter().collect();
        assert_eq!(verify_token(SECRET, &tampered, 0).err(), Some(TokenError::Invalid));
    }
}
