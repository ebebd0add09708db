//! The signed encoding of claims, as `jsonwebtoken` computes it.
//!
//! Nothing in this file is proved. Each item states what is taken on trust
//! of the crate's HS256 encoding with its default header.

use vstd::prelude::*;
use crate::jwt::claims::{Claims, ClaimsView};

verus! {

/// The error type of `jsonwebtoken`.
#[verifier::external_type_specification]
#[verifier::external_body]
pub struct ExJwtFailure(jsonwebtoken::errors::Error);

/// The token that `jsonwebtoken::encode` returns for these claims under this
/// key, or `None` where it returns an error (on no claims that
/// [`encode_claims`] hands it).
pub uninterp spec fn jwt_encoding(claims: ClaimsView, key: Seq<u8>) -> Option<Seq<char>>;

/// The claims that `jsonwebtoken::decode` returns for this token under this
/// key when it does not look at the clock, or `None` where it returns an
/// error or the payload does not hold the four claims, each of its type.
pub uninterp spec fn jwt_decoding(token: Seq<char>, key: Seq<u8>) -> Option<ClaimsView>;

/// Signs `claims` with `key`.
///
/// Calls `jsonwebtoken::encode` with `Header::default()` (HS256) and
/// `EncodingKey::from_secret(key)` on a JSON object with the members `sub`,
/// `exp`, `iat` and `token_type`.
///
/// Trusted, first: the call succeeds, and the result is the one named by
/// [`jwt_encoding`]. In the crate, `encode` fails where the key is of
/// another family than the header's algorithm, where the header or the
/// claims cannot be written as JSON, or where signing fails; the key made
/// by `from_secret` is of the family of HS256, an object of text and whole
/// numbers can always be written, and `crypto::sign` returns `Ok` for
/// HS256.
///
/// Trusted, second: a token so made, whose expiry is not negative, decodes
/// under the same key to the same claims ([`jwt_decoding`]). In the crate,
/// `decode` splits the token at its dots, accepts a header that names
/// HS256, signs `header.payload` again with the key and compares the two
/// signatures (`crypto::verify`), and asks for an `exp` that reads as an
/// unsigned number (`validation::validate`); the payload is the JSON that
/// `encode` wrote.
#[verifier::external_body]
pub(crate) fn encode_claims(claims: &Claims, key: &[u8]) -> (r: Result<
    String,
    jsonwebtoken::errors::Error,
>)
    ensures
        r is Ok,
        r matches Ok(token) ==> jwt_encoding(claims@, key@) == Some(token@),
        r matches Ok(token) ==> claims.exp >= 0 ==> jwt_decoding(token@, key@) == Some(claims@),
{
    let mut body = serde_json::Map::new();
    body.insert("sub".to_string(), serde_json::Value::from(claims.sub.as_str()));
    body.insert("exp".to_string(), serde_json::Value::from(claims.exp));
    body.insert("iat".to_string(), serde_json::Value::from(claims.iat));
    body.insert("token_type".to_string(), serde_json::Value::from(claims.token_type.as_str()));
    let key = jsonwebtoken::EncodingKey::from_secret(key);
    jsonwebtoken::encode(&jsonwebtoken::Header::default(), &body, &key)
}

/// Checks the signature of `token` with `key` and reads its claims.
///
/// Calls `jsonwebtoken::decode` with `DecodingKey::from_secret(key)` and the
/// default validation (HS256) with its expiry check switched off, so that the
/// result depends on the token and the key alone; then reads the members
/// `sub`, `exp`, `iat` and `token_type` of the payload.
///
/// Trusted: the result is the one named by [`jwt_decoding`].
#[verifier::external_body]
pub(crate) fn decode_claims(token: &str, key: &[u8]) -> (r: Option<Claims>)
    ensures
        match r {
            Some(claims) => jwt_decoding(token@, key@) == Some(claims@),
            None => jwt_decoding(token@, key@) is None,
        },
{
    let mut validation = jsonwebtoken::Validation::default();
    validation.validate_exp = false;
    let key = jsonwebtoken::DecodingKey::from_secret(key);
    let body = jsonwebtoken::decode::<serde_json::Value>(token, &key, &validation).ok()?.claims;
    Some(Claims {
        sub: body.get("sub")?.as_str()?.to_owned(),
        exp: body.get("exp")?.as_i64()?,
        iat: body.get("iat")?.as_i64()?,
        token_type: body.get("token_type")?.as_str()?.to_owned(),
    })
}

} // verus!
