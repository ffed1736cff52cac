//! Session tokens: HS256-signed JSON Web Tokens carrying a user's claims.
use vstd::prelude::*;
use crate::api::TokenClaims;
use jsonwebtoken::{decode, encode, DecodingKey, EncodingKey, Header, Validation};
use serde_json::Value;

verus! {

/// The token that `jsonwebtoken::encode` produces with the default header
/// (HS256) for the claims `sub`, `role` and `exp`, signed with `secret`.
pub uninterp spec fn hs256_token(sub: Seq<char>, role: Seq<char>, exp: i64, secret: Seq<u8>) -> Seq<char>;

/// The claims `sub`, `role` and `exp` that `jsonwebtoken::decode` with the
/// default validation but without the expiry check reads from `token` signed
/// with `secret`; `None` when the token is rejected or lacks one of them.
pub uninterp spec fn hs256_claims(token: Seq<char>, secret: Seq<u8>) -> Option<(Seq<char>, Seq<char>, i64)>;

/// `jsonwebtoken::encode` of the claims, written as a JSON object in the
/// order `sub`, `role`, `exp`, with `Header::default()` and
/// `EncodingKey::from_secret(secret)`; the error's `Display` text on failure.
/// Trusted: encoding succeeds (an HMAC key matches the HS256 header, a JSON
/// object with string keys always serialises, and HMAC signing cannot fail);
/// the token is named by `hs256_token`, a function of the claims and the
/// secret; and decoding a token with the same secret gives back the claims
/// when the expiry is not negative (the decoder reads the expiry as an
/// unsigned number).
#[verifier::external_body]
pub(crate) fn sign_session_token(claims: &TokenClaims, secret: &[u8]) -> (r: Result<String, String>)
    ensures
        r is Ok,
        r matches Ok(t) ==> {
            &&& t@ == hs256_token(claims.sub@, claims.role@, claims.exp, secret@)
            &&& claims.exp >= 0 ==> hs256_claims(t@, secret@) == Some((claims.sub@, claims.role@, claims.exp))
        },
{
    let mut payload = serde_json::Map::new();
    payload.insert("sub".to_string(), Value::from(claims.sub.as_str()));
    payload.insert("role".to_string(), Value::from(claims.role.as_str()));
    payload.insert("exp".to_string(), Value::from(claims.exp));
    match encode(&Header::default(), &payload, &EncodingKey::from_secret(secret)) {
        Ok(token) => Ok(token),
        Err(e) => Err(e.to_string()),
    }
}

/// `jsonwebtoken::decode` of `token` with `DecodingKey::from_secret(secret)`
/// and `Validation::default()` with `validate_exp` off, its claims read as
/// `sub` and `role` strings and an `exp` that fits in an `i64`. Trusted: the
/// result is named by `hs256_claims`, a function of the token and the secret.
#[verifier::external_body]
pub(crate) fn token_claims(token: &str, secret: &[u8]) -> (r: Option<TokenClaims>)
    ensures
        r is None <==> hs256_claims(token@, secret@) is None,
        r matches Some(c) ==> hs256_claims(token@, secret@) == Some((c.sub@, c.role@, c.exp)),
{
    let mut validation = Validation::default();
    validation.validate_exp = false;
    let key = DecodingKey::from_secret(secret);
    let mut c = match decode::<serde_json::Map<String, Value>>(token, &key, &validation) {
        Ok(data) => data.claims,
        Err(_) => return None,
    };
    match (c.remove("sub"), c.remove("role"), c.remove("exp")) {
        (Some(Value::String(sub)), Some(Value::String(role)), Some(Value::Number(n))) => match n.as_i64() {
            Some(exp) => Some(TokenClaims { sub, role, exp }),
            None => None,
        },
        _ => None,
    }
}

} // verus!
