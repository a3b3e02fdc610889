//! The token service: issuing and verifying signed, time-boxed session
//! tokens, and the access-guard state machine that authenticates a
//! bearer token and resolves the acting user.
use vstd::prelude::*;

use jsonwebtoken::errors::ErrorKind;
use jsonwebtoken::{decode, encode, DecodingKey, EncodingKey, Header, Validation};
use serde_json::Value;

use crate::errors::{ApiResult, AppError};

verus! {

/// The claims a session token carries: nothing is persisted, the
/// signed token is the whole session.
#[derive(Clone, Copy, Debug, PartialEq, Eq, Structural)]
pub struct Claims {
    pub exp: i64,
    pub iat: i64,
    pub user_id: i32,
}

/// Sessions last 24 hours from issuance.
pub const SESSION_SECONDS: i64 = 86400;

impl Claims {
    /// Claims issued at `now`, expiring one day later.
    pub fn new(user_id: i32, now: i64) -> (r: Claims)
        requires
            now <= i64::MAX - SESSION_SECONDS,
        ensures
            r.user_id == user_id,
            r.iat == now,
            r.exp == now + SESSION_SECONDS,
    {
        Claims { user_id, exp: now + SESSION_SECONDS, iat: now }
    }
}

/// The compact signed token that `jsonwebtoken::encode` produces under
/// this key for these claims; signing is deterministic in them, so the
/// token is named rather than restated.
pub uninterp spec fn token_of(key: Seq<char>, user_id: int, iat: int, exp: int) -> Seq<char>;

/// Relies on `jsonwebtoken::encode` with the default HS256 header: the
/// token is an HMAC-signed function of the key and the claims alone.
/// Signing with an HMAC secret under the matching default header cannot
/// fail, and neither can serializing the header or the claims object,
/// so the call always succeeds.
#[verifier::external_body]
fn encode_claims(key: &str, user_id: i64, iat: i64, exp: i64) -> (r: ApiResult<String>)
    ensures
        r is Ok,
        r matches Ok(t) ==> t@ == token_of(key@, user_id as int, iat as int, exp as int),
{
    let mut claims = serde_json::Map::new();
    claims.insert("user_id".to_string(), Value::from(user_id));
    claims.insert("iat".to_string(), Value::from(iat));
    claims.insert("exp".to_string(), Value::from(exp));
    let key = EncodingKey::from_secret(key.as_bytes());
    match encode(&Header::default(), &Value::Object(claims), &key) {
        Ok(t) => Ok(t),
        Err(_) => Err(AppError::ServerError),
    }
}

/// Relies on `jsonwebtoken::decode` under the default validation
/// (HS256, `exp` required, 60 s leeway): a token that `encode` produced
/// under the same key, with a non-negative expiry, yields exactly the
/// claims it was built from unless its expiry has passed; expiry,
/// signature and structure failures are told apart by the error kind.
#[verifier::external_body]
fn decode_claims(key: &str, token: &str) -> (r: ApiResult<(i64, i64, i64)>)
    ensures
        forall|u: int, i: int, e: int|
            (i64::MIN <= u <= i64::MAX && i64::MIN <= i <= i64::MAX && 0 <= e <= i64::MAX && token@
                == #[trigger] token_of(key@, u, i, e)) ==> (r == Ok::<(i64, i64, i64), AppError>(
                (u as i64, i as i64, e as i64),
            ) || r == Err::<(i64, i64, i64), AppError>(AppError::TokenExpired)),
        r matches Err(err) ==> (err == AppError::TokenExpired || err == AppError::TokenMalformed
            || err == AppError::TokenSignatureInvalid),
{
    let secret = DecodingKey::from_secret(key.as_bytes());
    let decoded = match decode::<Value>(token, &secret, &Validation::default()) {
        Ok(d) => d.claims,
        Err(e) => return Err(match e.kind() {
            ErrorKind::ExpiredSignature => AppError::TokenExpired,
            ErrorKind::InvalidSignature => AppError::TokenSignatureInvalid,
            _ => AppError::TokenMalformed,
        }),
    };
    let fields = (decoded.get("user_id"), decoded.get("iat"), decoded.get("exp"));
    match (fields.0.and_then(Value::as_i64), fields.1.and_then(Value::as_i64), fields.2.and_then(Value::as_i64)) {
        (Some(u), Some(i), Some(e)) => Ok((u, i, e)),
        _ => Err(AppError::TokenMalformed),
    }
}

/// Issue a session token for `user_id` at `now`, signed with the
/// process-wide secret key. Issuance always succeeds: the token is
/// exactly the signing result for these claims.
pub fn generate_token(key: &str, user_id: i32, now: i64) -> (r: ApiResult<String>)
    requires
        now <= i64::MAX - SESSION_SECONDS,
    ensures
        r is Ok,
        r matches Ok(t) ==> t@ == token_of(
            key@,
            user_id as int,
            now as int,
            now + SESSION_SECONDS,
        ),
{
    let claims = Claims::new(user_id, now);
    encode_claims(key, user_id as i64, claims.iat, claims.exp)
}

/// Verify a session token: a token this service issued under the same
/// key comes back as its claims, unless it has expired; everything
/// else fails as expired, malformed or wrongly signed.
pub fn verify_token(key: &str, token: &str) -> (r: ApiResult<Claims>)
    ensures
        r matches Err(err) ==> (err == AppError::TokenExpired || err == AppError::TokenMalformed
            || err == AppError::TokenSignatureInvalid),
        forall|u: int, i: int, e: int|
            (i32::MIN <= u <= i32::MAX && i64::MIN <= i <= i64::MAX && 0 <= e <= i64::MAX && token@
                == #[trigger] token_of(key@, u, i, e)) ==> (r == Ok::<Claims, AppError>(
                Claims { exp: e as i64, iat: i as i64, user_id: u as i32 },
            ) || r == Err::<Claims, AppError>(AppError::TokenExpired)),
{
    match decode_claims(key, token) {
        Err(e) => Err(e),
        Ok((u, i, e)) => {
            if u < i32::MIN as i64 || u > i32::MAX as i64 {
                return Err(AppError::TokenMalformed);
            }
            Ok(Claims { exp: e, iat: i, user_id: u as i32 })
        },
    }
}

/// The single collapsed rejection the access guard reports for any
/// token failure.
pub fn invalid_token_rejection() -> (r: (u16, &'static str))
    ensures
        r.0 == 401,
        r.1@ == "Invalid token"@,
{
    (401, "Invalid token")
}

/// Token verification as the access guard uses it: every failure,
/// whatever its kind internally, collapses into one unauthorized
/// rejection.
pub fn verify_token_middleware(key: &str, token: &str) -> (r: Result<Claims, (u16, &'static str)>)
    ensures
        r matches Err(rej) ==> rej.0 == 401 && rej.1@ == "Invalid token"@,
        forall|u: int, i: int, e: int|
            (i32::MIN <= u <= i32::MAX && i64::MIN <= i <= i64::MAX && 0 <= e <= i64::MAX && token@
                == #[trigger] token_of(key@, u, i, e)) ==> ((r matches Ok(c) && c == (Claims {
                exp: e as i64,
                iat: i as i64,
                user_id: u as i32,
            })) || (r matches Err(rej) && rej.0 == 401)),
{
    match verify_token(key, token) {
        Ok(claims) => Ok(claims),
        Err(_) => Err(invalid_token_rejection()),
    }
}

/// The acting user the guard injects into the request's downstream
/// context.
#[derive(Clone, Copy, Debug, PartialEq, Eq, Structural)]
pub struct CurrentUser {
    pub id: i32,
}

/// The access guard's state machine over one request: no token is
/// rejected outright; a present token is verified and either resolves
/// the acting user or is rejected, all failures collapsed into one
/// unauthorized outcome.
pub fn user_auth_required(key: &str, token: Option<&str>) -> (r: Result<
    CurrentUser,
    (u16, &'static str),
>)
    ensures
        token is None ==> (r matches Err(rej) && rej.0 == 401 && rej.1@ == "Token not provided"@),
        token matches Some(_) ==> (r matches Err(rej) ==> rej.0 == 401 && rej.1@
            == "Invalid token"@),
        forall|u: int, i: int, e: int|
            (token matches Some(t) && i32::MIN <= u <= i32::MAX && i64::MIN <= i <= i64::MAX && 0
                <= e <= i64::MAX && t@ == #[trigger] token_of(key@, u, i, e)) ==> ((r matches Ok(cu)
                && cu == (CurrentUser { id: u as i32 })) || (r matches Err(rej) && rej.0 == 401)),
{
    let t = match token {
        None => {
            return Err((401, "Token not provided"));
        },
        Some(t) => t,
    };
    match verify_token_middleware(key, t) {
        Ok(claims) => Ok(CurrentUser { id: claims.user_id }),
        Err(rej) => Err(rej),
    }
}

/// Relies on `chrono::Utc::now`: the current Unix timestamp in seconds.
/// Its value depends on the clock, so nothing is promised of it.
#[verifier::external_body]
pub fn current_timestamp() -> i64 {
    chrono::Utc::now().timestamp()
}

} // verus!
