use vstd::prelude::*;
use jsonwebtoken::{Algorithm, DecodingKey, EncodingKey, Header, Validation, decode, encode};
use serde_json::Value;
use crate::config::Config;
use crate::decimal::{dec_rep_int, i32_to_string};
use crate::errors::AuthError;
use crate::models::{Claims, ClaimsView};

verus! {

/// The token string that jsonwebtoken's `encode` returns for these
/// claims under this secret with the default header (HS256): the
/// base64url header and claims joined with '.', followed by '.' and
/// the base64url HMAC-SHA256 tag of that message.  It is a
/// deterministic function of the claims and the secret.
pub uninterp spec fn token_of(c: ClaimsView, secret: Seq<char>) -> Seq<char>;

/// The outcome of jsonwebtoken's `decode` on this token under this
/// secret, with HS256-only validation, required claims cleared and
/// expiry validation off: the embedded claims when the signature
/// checks out and the payload carries the four claim fields, and
/// nothing otherwise.  With those settings the outcome depends on the
/// token and the secret alone — no clock, no environment — so it is a
/// deterministic function of the two.
pub uninterp spec fn decodes_to(token: Seq<char>, secret: Seq<char>) -> Option<ClaimsView>;

/// The claims a token issued at `now` carries for this user.
pub open spec fn claims_for(user_id: int, role: Seq<char>, now: int, ttl_minutes: int) -> ClaimsView {
    ClaimsView {
        sub: dec_rep_int(user_id),
        exp: now + ttl_minutes * 60,
        iat: now,
        role: role,
    }
}

/// The claims issued for a user carry the user's id as a canonical
/// decimal subject that parses back to exactly that id, the same
/// role, and an expiry `ttl_minutes` minutes after the issue time.
/// Together with the contracts of `generate_token` and
/// `validate_token` this gives the issue/validate round trip: a token
/// issued for (user_id, role) validates, before its expiry, to claims
/// whose subject and role match.
pub proof fn lemma_issued_claims(user_id: i32, role: Seq<char>, now: int, ttl_minutes: int)
    ensures
        claims_for(user_id as int, role, now, ttl_minutes).sub == dec_rep_int(user_id as int),
        crate::decimal::is_canonical_int(claims_for(user_id as int, role, now, ttl_minutes).sub),
        crate::decimal::int_val(claims_for(user_id as int, role, now, ttl_minutes).sub)
            == user_id as int,
        claims_for(user_id as int, role, now, ttl_minutes).role == role,
        claims_for(user_id as int, role, now, ttl_minutes).iat == now,
        claims_for(user_id as int, role, now, ttl_minutes).exp == now + ttl_minutes * 60,
{
    crate::decimal::lemma_dec_rep_int_val(user_id as int);
}

/// Whether an issue time and TTL give a representable expiry: both
/// timestamps must be non-negative unix seconds within i64 range.
pub open spec fn token_window_ok(now: int, ttl_minutes: int) -> bool {
    0 <= now && 0 <= now + ttl_minutes * 60 <= i64::MAX
}

/// Signs the claims with the secret.
///
/// Relies on jsonwebtoken::encode with Header::default() (HS256) and
/// EncodingKey::from_secret: for an HMAC key the algorithm families
/// agree and HMAC signing cannot fail, so a token always comes back,
/// a deterministic function of the claims and the secret.  The body
/// only moves the four claim fields into a JSON map for encoding.
#[verifier::external_body]
fn encode_claims(claims: &Claims, secret: &str) -> (r: String)
    ensures
        r@ == token_of(claims@, secret@),
{
    let mut m = serde_json::Map::new();
    m.insert("sub".to_string(), Value::String(claims.sub.clone()));
    m.insert("exp".to_string(), Value::from(claims.exp));
    m.insert("iat".to_string(), Value::from(claims.iat));
    m.insert("role".to_string(), Value::String(claims.role.clone()));
    encode(&Header::default(), &Value::Object(m), &EncodingKey::from_secret(secret.as_bytes()))
        .expect("HMAC signing cannot fail")
}

/// Checks the token's signature against the secret and hands the
/// embedded claims back; the expiry check is done by verified callers
/// against an explicit clock.
///
/// Relies on jsonwebtoken::decode::<serde_json::Value> with
/// DecodingKey::from_secret and HS256-only validation, expiry
/// validation turned off: a token that `encode` produced from claims
/// with this same secret carries a matching tag and decodes back to
/// exactly the claims that were encoded; the body only moves the four
/// claim fields out of the JSON map.
#[verifier::external_body]
fn decode_claims(token: &str, secret: &str) -> (r: Result<Claims, AuthError>)
    ensures
        match r {
            Ok(cc) => decodes_to(token@, secret@) == Some(cc@) && (forall|c: ClaimsView|
                token@ == #[trigger] token_of(c, secret@) ==> cc@ == c),
            Err(_) => decodes_to(token@, secret@) is None && (forall|c: ClaimsView|
                token@ != #[trigger] token_of(c, secret@)),
        },
{
    let mut v = Validation::new(Algorithm::HS256);
    v.validate_exp = false;
    v.required_spec_claims.clear();
    let key = DecodingKey::from_secret(secret.as_bytes());
    let d = decode::<Value>(token, &key, &v).map_err(|_| AuthError::InvalidToken)?.claims;
    match (
        d.get("sub").and_then(Value::as_str),
        d.get("exp").and_then(Value::as_u64),
        d.get("iat").and_then(Value::as_u64),
        d.get("role").and_then(Value::as_str),
    ) {
        (Some(s), Some(exp), Some(iat), Some(r)) =>
            Ok(Claims { sub: s.to_string(), exp, iat, role: r.to_string() }),
        _ => Err(AuthError::InvalidToken),
    }
}

/// The current unix time in seconds.
///
/// Relies on chrono::Utc::now; nothing is promised of the value.
#[verifier::external_body]
pub fn current_timestamp() -> (r: i64) {
    chrono::Utc::now().timestamp()
}

/// Issues a signed token for the user: subject is the decimal user id,
/// the expiry lies `jwt_expires_in` minutes after `now`.  Fails, and
/// does not panic, when the expiry is not representable.
pub fn generate_token(user_id: i32, role: &str, config: &Config, now: i64) -> (r: Result<
    String,
    AuthError,
>)
    ensures
        token_window_ok(now as int, config.jwt_expires_in as int) ==> (r matches Ok(t) && t@
            == token_of(
            claims_for(user_id as int, role@, now as int, config.jwt_expires_in as int),
            config.jwt_secret@,
        )),
        !token_window_ok(now as int, config.jwt_expires_in as int) ==> r == Err::<
            String,
            AuthError,
        >(AuthError::TokenCreation),
{
    if now < 0 {
        return Err(AuthError::TokenCreation);
    }
    let secs: i64 = match config.jwt_expires_in.checked_mul(60) {
        Some(s) => s,
        None => {
            return Err(AuthError::TokenCreation);
        },
    };
    let exp: i64 = match now.checked_add(secs) {
        Some(e) => e,
        None => {
            return Err(AuthError::TokenCreation);
        },
    };
    if exp < 0 {
        return Err(AuthError::TokenCreation);
    }
    let claims = Claims {
        sub: i32_to_string(user_id),
        exp: exp as u64,
        iat: now as u64,
        role: String::from_str(role),
    };
    Ok(encode_claims(&claims, config.jwt_secret.as_str()))
}

/// Validates a token against the secret and the given clock: it is
/// accepted exactly when it decodes under the secret and its expiry
/// lies strictly after `now`, and the returned claims are the decoded
/// ones.  Any failure collapses into the one generic token error, so
/// callers cannot tell a bad signature from a malformed token or an
/// expired one.
pub fn validate_token(token: &str, config: &Config, now: i64) -> (r: Result<Claims, AuthError>)
    ensures
        forall|c: ClaimsView| token@ == #[trigger] token_of(c, config.jwt_secret@) ==> ((c.exp
            > now ==> (r matches Ok(cc) && cc@ == c)) && (c.exp <= now ==> r == Err::<
            Claims,
            AuthError,
        >(AuthError::InvalidToken))),
        match r {
            Ok(cc) => decodes_to(token@, config.jwt_secret@) == Some(cc@) && cc.exp > now,
            Err(e) => e == AuthError::InvalidToken && (match decodes_to(
                token@,
                config.jwt_secret@,
            ) {
                Some(c) => c.exp <= now,
                None => true,
            }),
        },
{
    match decode_claims(token, config.jwt_secret.as_str()) {
        Ok(c) => {
            if now >= 0 && c.exp <= now as u64 {
                Err(AuthError::InvalidToken)
            } else {
                Ok(c)
            }
        },
        Err(_) => Err(AuthError::InvalidToken),
    }
}

} // verus!
