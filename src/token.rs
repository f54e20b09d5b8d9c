//! The token codec: claim sets signed into compact HS256 tokens, and tokens
//! checked back into claim sets.
use vstd::prelude::*;

verus! {

/// How long a freshly issued token stays valid: four hours, in seconds.
pub const TOKEN_VALIDITY_SECS: u64 = 4 * 60 * 60;

/// The payload carried inside a token.
pub struct Claims {
    /// Identifier of the authenticated principal.
    pub sub: u32,
    /// Flat role tag.
    pub role: String,
    /// Unix time (seconds) from which the token is no longer valid.
    pub exp: u64,
}

/// The mathematical value of a [`Claims`].
pub struct ClaimSet {
    pub sub: u32,
    pub role: Seq<char>,
    pub exp: u64,
}

impl View for Claims {
    type V = ClaimSet;

    open spec fn view(&self) -> ClaimSet {
        ClaimSet { sub: self.sub, role: self.role@, exp: self.exp }
    }
}

/// Why a token was not accepted.
#[derive(Clone, Copy, Debug, PartialEq, Eq, Structural)]
pub enum TokenError {
    /// Malformed, wrongly signed, signed with another algorithm, or missing
    /// a claim.
    Invalid,
    /// Well formed and authentic, but its expiry time has been reached.
    Expired,
}

/// The fields `sub`, `role` and `exp` as found in a token's payload, each
/// present only where it holds a value of the expected JSON type.
pub type PayloadFields = (Option<u64>, Option<Seq<char>>, Option<u64>);

/// The token that `jsonwebtoken::encode` produces for the payload
/// `{"exp":exp,"role":role,"sub":sub}` under the default HS256 header and the
/// key `secret`.
pub uninterp spec fn hs256_token(secret: Seq<char>, sub: u32, role: Seq<char>, exp: u64) -> Seq<char>;

/// What `jsonwebtoken::decode` finds in `token` under the key `secret`, with
/// HS256 as the only algorithm and its own expiry check off; `None` where it
/// rejects the token.
pub uninterp spec fn hs256_decoded(secret: Seq<char>, token: Seq<char>) -> Option<PayloadFields>;

/// Index of the last `.` in `t`, or -1 where there is none.
pub open spec fn last_dot(t: Seq<char>) -> int
    decreases t.len(),
{
    if t.len() == 0 {
        -1
    } else if t.last() == '.' {
        t.len() - 1
    } else {
        last_dot(t.drop_last())
    }
}

/// Number of `.` characters in `t`.
pub open spec fn dot_count(t: Seq<char>) -> nat
    decreases t.len(),
{
    if t.len() == 0 {
        0
    } else {
        dot_count(t.drop_last()) + if t.last() == '.' {
            1nat
        } else {
            0nat
        }
    }
}

/// `s` is a non-empty string over the URL-safe base64 alphabet.
pub open spec fn is_base64url(s: Seq<char>) -> bool {
    s.len() > 0 && forall|i: int|
        0 <= i < s.len() ==> {
            let c = #[trigger] s[i];
            ('A' <= c <= 'Z') || ('a' <= c <= 'z') || ('0' <= c <= '9') || c == '-' || c == '_'
        }
}

/// `t` is a compact token: three URL-safe base64 segments joined by `.`.
pub open spec fn is_compact(t: Seq<char>) -> bool {
    exists|h: Seq<char>, p: Seq<char>, sig: Seq<char>|
        is_base64url(h) && is_base64url(p) && is_base64url(sig) && t == #[trigger] (h + seq!['.']
            + p + seq!['.'] + sig)
}

/// The signed part of a token: everything before its last `.`.
pub open spec fn signing_input(t: Seq<char>) -> Seq<char> {
    if last_dot(t) >= 0 {
        t.subrange(0, last_dot(t))
    } else {
        t
    }
}

/// `t2` is `t` with one character of its signature segment (after the last
/// `.`) replaced by a different character.
pub open spec fn signature_tampered(t: Seq<char>, t2: Seq<char>) -> bool {
    exists|j: int, c: char|
        0 <= j && last_dot(t) < j < t.len() && c != t[j] && t2 == #[trigger] t.update(j, c)
}

pub open spec fn option_view(o: Option<String>) -> Option<Seq<char>> {
    match o {
        Some(s) => Some(s@),
        None => None,
    }
}

pub open spec fn fields_view(f: (Option<u64>, Option<String>, Option<u64>)) -> PayloadFields {
    (f.0, option_view(f.1), f.2)
}

/// The claim set that payload fields describe: all three present and the
/// subject within `u32`.
pub open spec fn claims_from_fields(f: PayloadFields) -> Option<ClaimSet> {
    match f {
        (Some(sub), Some(role), Some(exp)) => if sub <= u32::MAX {
            Some(ClaimSet { sub: sub as u32, role, exp })
        } else {
            None
        },
        _ => None,
    }
}

/// The verdict on `token` under `secret` at Unix time `now`.
pub open spec fn token_verdict(secret: Seq<char>, token: Seq<char>, now: u64) -> Result<ClaimSet, TokenError> {
    match hs256_decoded(secret, token) {
        None => Err(TokenError::Invalid),
        Some(f) => match claims_from_fields(f) {
            None => Err(TokenError::Invalid),
            Some(c) => if now >= c.exp {
                Err(TokenError::Expired)
            } else {
                Ok(c)
            },
        },
    }
}

pub open spec fn verdict_view(r: Result<Claims, TokenError>) -> Result<ClaimSet, TokenError> {
    match r {
        Ok(c) => Ok(c@),
        Err(e) => Err(e),
    }
}

#[verifier::external_type_specification]
#[verifier::external_body]
pub struct ExJwtError(jsonwebtoken::errors::Error);

/// Relies on `jsonwebtoken::encode` with `Header::default()` (HS256) and
/// `EncodingKey::from_secret`: the key family matches the algorithm, a JSON
/// object always serializes and HMAC signing cannot fail, so it returns the
/// signed token, made of the base64url (unpadded) header, payload and
/// signature joined by `.`.
#[verifier::external_body]
fn encode_hs256(secret: &str, sub: u32, role: &str, exp: u64) -> (r: Result<String, jsonwebtoken::errors::Error>)
    ensures
        r is Ok,
        r->Ok_0@ == hs256_token(secret@, sub, role@, exp),
        is_compact(r->Ok_0@),
{
    let mut payload = serde_json::Map::new();
    payload.insert("sub".to_string(), serde_json::Value::from(sub));
    payload.insert("role".to_string(), serde_json::Value::from(role));
    payload.insert("exp".to_string(), serde_json::Value::from(exp));
    let key = jsonwebtoken::EncodingKey::from_secret(secret.as_bytes());
    jsonwebtoken::encode(&jsonwebtoken::Header::default(), &serde_json::Value::Object(payload), &key)
}

/// Relies on `jsonwebtoken::decode` into a JSON value, with
/// `Validation::new(Algorithm::HS256)` and its expiry check off. It accepts a
/// token that `encode` made under the same key and hands back its payload;
/// for HS256 it re-signs the signing input and compares the signature
/// segment for equality, so one signing input has one accepted token. It
/// splits at the last two `.` and base64url-decodes the header, which holds
/// no `.`, so an accepted token has exactly two.
#[verifier::external_body]
fn decode_hs256(secret: &str, token: &str) -> (r: Result<(Option<u64>, Option<String>, Option<u64>), jsonwebtoken::errors::Error>)
    ensures
        r is Ok <==> hs256_decoded(secret@, token@) is Some,
        r is Ok ==> fields_view(r->Ok_0) == hs256_decoded(secret@, token@)->Some_0,
        forall|sub: u32, role: Seq<char>, exp: u64|
            token@ == #[trigger] hs256_token(secret@, sub, role, exp) ==> r is Ok && fields_view(r->Ok_0) == (
            Some(sub as u64),
            Some(role),
            Some(exp),
        ),
        r is Ok ==> last_dot(token@) >= 0,
        r is Ok ==> forall|other: Seq<char>|
            #[trigger] hs256_decoded(secret@, other) is Some ==> dot_count(other) == 2 && (
            signing_input(other) == signing_input(token@) ==> other == token@),
{
    let mut validation = jsonwebtoken::Validation::new(jsonwebtoken::Algorithm::HS256);
    validation.validate_exp = false;
    let key = jsonwebtoken::DecodingKey::from_secret(secret.as_bytes());
    let claims = jsonwebtoken::decode::<serde_json::Value>(token, &key, &validation)?.claims;
    let sub = claims.get("sub").and_then(serde_json::Value::as_u64);
    let role = claims.get("role").and_then(serde_json::Value::as_str).map(String::from);
    let exp = claims.get("exp").and_then(serde_json::Value::as_u64);
    Ok((sub, role, exp))
}

/// Relies on `SystemTime::now` and `duration_since(UNIX_EPOCH)`: the current
/// Unix time in whole seconds, or `None` where the clock reads earlier than
/// the epoch.
#[verifier::external_body]
pub(crate) fn unix_time_now() -> (r: Option<u64>) {
    std::time::SystemTime::now().duration_since(std::time::UNIX_EPOCH).ok().map(|d| d.as_secs())
}

/// Replacing a non-final character after the last `.` by one other than `.`
/// keeps the last `.` where it was.
proof fn lemma_last_dot_update(t: Seq<char>, j: int, c: char)
    requires
        0 <= j,
        last_dot(t) < j < t.len(),
        c != '.',
    ensures
        last_dot(t.update(j, c)) == last_dot(t),
    decreases t.len(),
{
    let t2 = t.update(j, c);
    if j == t.len() - 1 {
        assert(t2.drop_last() =~= t.drop_last());
    } else {
        assert(t2.drop_last() =~= t.drop_last().update(j, c));
        lemma_last_dot_update(t.drop_last(), j, c);
    }
}

/// Every character after the last `.` is not a `.`.
proof fn lemma_after_last_dot(t: Seq<char>, j: int)
    requires
        0 <= j,
        last_dot(t) < j < t.len(),
    ensures
        t[j] != '.',
    decreases t.len(),
{
    if j < t.len() - 1 && t.last() != '.' {
        lemma_after_last_dot(t.drop_last(), j);
    }
}

/// Writing a `.` over a character that is not one adds one `.`.
proof fn lemma_dot_count_add(t: Seq<char>, j: int)
    requires
        0 <= j < t.len(),
        t[j] != '.',
    ensures
        dot_count(t.update(j, '.')) == dot_count(t) + 1,
    decreases t.len(),
{
    let t2 = t.update(j, '.');
    if j == t.len() - 1 {
        assert(t2.drop_last() =~= t.drop_last());
    } else {
        assert(t2.drop_last() =~= t.drop_last().update(j, '.'));
        lemma_dot_count_add(t.drop_last(), j);
    }
}

/// Signs `claims` into a compact token under `secret`: the one
/// `jsonwebtoken` makes for these claims.
pub fn issue_token(secret: &str, claims: &Claims) -> (r: String)
    ensures
        r@ == hs256_token(secret@, claims.sub, claims.role@, claims.exp),
        is_compact(r@),
{
    encode_hs256(secret, claims.sub, claims.role.as_str(), claims.exp).unwrap()
}

/// Checks `token` under `secret` at Unix time `now`: structure, signature
/// and algorithm, the three claims, and that `now` is before the expiry.
pub fn verify_token(secret: &str, token: &str, now: u64) -> (r: Result<Claims, TokenError>)
    ensures
        verdict_view(r) == token_verdict(secret@, token@, now),
        // a token issued for `c` gives `c` back while it has not expired
        forall|c: ClaimSet|
            token@ == #[trigger] hs256_token(secret@, c.sub, c.role, c.exp) && now < c.exp
                ==> r is Ok && r->Ok_0@ == c,
        // and is classified as expired from its expiry time on
        forall|c: ClaimSet|
            token@ == #[trigger] hs256_token(secret@, c.sub, c.role, c.exp) && now >= c.exp
                ==> r == Err::<Claims, TokenError>(TokenError::Expired),
        // changing one character of an accepted token's signature is rejected
        hs256_decoded(secret@, token@) is Some ==> forall|other: Seq<char>, at: u64|
            signature_tampered(token@, other) ==> #[trigger] token_verdict(secret@, other, at)
                == Err::<ClaimSet, TokenError>(TokenError::Invalid),
{
    let decoded = decode_hs256(secret, token);
    proof {
        if decoded is Ok {
            assert forall|other: Seq<char>, at: u64|
                signature_tampered(token@, other) implies #[trigger] token_verdict(secret@, other, at)
                == Err::<ClaimSet, TokenError>(TokenError::Invalid) by {
                let (j, c) = choose|j: int, c: char|
                    0 <= j && last_dot(token@) < j < token@.len() && c != token@[j] && other
                        == #[trigger] token@.update(j, c);
                assert(hs256_decoded(secret@, token@) is Some);
                assert(other[j] != token@[j]);
                if c == '.' {
                    lemma_after_last_dot(token@, j);
                    lemma_dot_count_add(token@, j);
                } else {
                    lemma_last_dot_update(token@, j, c);
                    assert(signing_input(other) =~= signing_input(token@));
                }
            }
        }
    }
    match decoded {
        Err(_) => Err(TokenError::Invalid),
        Ok((sub, role, exp)) => match (sub, role, exp) {
            (Some(sub), Some(role), Some(exp)) => {
                if sub > u32::MAX as u64 {
                    Err(TokenError::Invalid)
                } else if now >= exp {
                    Err(TokenError::Expired)
                } else {
                    Ok(Claims { sub: sub as u32, role, exp })
                }
            },
            _ => Err(TokenError::Invalid),
        },
    }
}

} // verus!
