//! Issuing and checking tokens.

use vstd::prelude::*;
use crate::clock::{is_clock_reading, unix_now};
use crate::jwt::claims::{claims_for, lemma_labels_differ, Claims, ClaimsView, TokenKind};
use crate::jwt::codec::{decode_claims, encode_claims, jwt_decoding, jwt_encoding};
use crate::jwt::error::JwtError;
use crate::text::same_text;

verus! {

/// The token issued to `subject` at `now`, or `None` where the expiry does
/// not fit the claims.
pub open spec fn issued(subject: Seq<char>, kind: TokenKind, secret: Seq<u8>, now: int) -> Option<
    Seq<char>,
> {
    if now + kind.lifetime_secs() > i64::MAX {
        None
    } else {
        jwt_encoding(claims_for(subject, kind, now), secret)
    }
}

/// What becomes of a token whose signature check gave `decoded`, when a token
/// of kind `expected` is asked for at `now`. The tests are made in this
/// order: signature and shape, expiry, kind.
pub open spec fn verdict(decoded: Option<ClaimsView>, expected: TokenKind, now: int) -> Result<
    ClaimsView,
    JwtError,
> {
    match decoded {
        None => Err(JwtError::TokenDecodingError),
        Some(claims) => if claims.exp < now {
            Err(JwtError::TokenExpired)
        } else if claims.token_type != expected.label_text() {
            Err(JwtError::InvalidTokenType)
        } else {
            Ok(claims)
        },
    }
}

/// The view of the result of a check.
pub open spec fn outcome_view(r: Result<Claims, JwtError>) -> Result<ClaimsView, JwtError> {
    match r {
        Ok(claims) => Ok(claims@),
        Err(e) => Err(e),
    }
}

/// The view of what a signature check gave.
pub open spec fn decoded_view(decoded: Option<Claims>) -> Option<ClaimsView> {
    match decoded {
        Some(claims) => Some(claims@),
        None => None,
    }
}

/// What a caller is told of a token: the claims where the token is
/// accepted, and [`JwtError::Invalid`] where it is not, whichever test it
/// failed.
pub open spec fn answer(decoded: Option<ClaimsView>, expected: TokenKind, now: int) -> Result<
    ClaimsView,
    JwtError,
> {
    match verdict(decoded, expected, now) {
        Ok(claims) => Ok(claims),
        Err(_) => Err(JwtError::Invalid),
    }
}

/// Issues a token of kind `kind` to `user_id`, signed with `secret`, as of
/// the time `now`.
///
/// The token is refused only where its expiry does not fit. A token whose
/// expiry is not negative decodes under the same secret to the claims it
/// was issued with, so it is accepted again (see [`verify_token_at`]) from
/// `now` until it expires.
pub fn create_token_at(user_id: &str, kind: TokenKind, secret: &[u8], now: i64) -> (r: Result<
    String,
    JwtError,
>)
    ensures
        match r {
            Ok(token) => {
                &&& now + kind.lifetime_secs() <= i64::MAX
                &&& issued(user_id@, kind, secret@, now as int) == Some(token@)
                &&& now + kind.lifetime_secs() >= 0 ==> jwt_decoding(token@, secret@) == Some(
                    claims_for(user_id@, kind, now as int),
                )
            },
            Err(e) => {
                &&& e == JwtError::TokenCreationError
                &&& now + kind.lifetime_secs() > i64::MAX
                &&& issued(user_id@, kind, secret@, now as int) is None
            },
        },
{
    let expires_at = match now.checked_add(kind.lifetime()) {
        Some(t) => t,
        None => {
            return Err(JwtError::TokenCreationError);
        },
    };
    let claims = Claims {
        sub: user_id.to_owned(),
        exp: expires_at,
        iat: now,
        token_type: kind.label().to_owned(),
    };
    match encode_claims(&claims, secret) {
        Ok(token) => Ok(token),
        // Not reached: these claims can always be signed.
        Err(_) => Err(JwtError::TokenCreationError),
    }
}

/// What holds of a token of kind `kind` issued to `subject` under `secret`
/// at a reading `now` of the clock: it is the token issued then, and it
/// decodes under the same secret to the claims it was issued with.
pub open spec fn issued_now(
    token: Seq<char>,
    subject: Seq<char>,
    kind: TokenKind,
    secret: Seq<u8>,
    now: int,
) -> bool {
    &&& is_clock_reading(now)
    &&& issued(subject, kind, secret, now) == Some(token)
    &&& jwt_decoding(token, secret) == Some(claims_for(subject, kind, now))
}

/// Issues a token of kind `kind` to `user_id`, signed with `secret`, as of
/// the present time. This succeeds always.
pub fn create_token(user_id: &str, kind: TokenKind, secret: &[u8]) -> (r: Result<String, JwtError>)
    ensures
        r matches Ok(token) && exists|now: int| #[trigger]
            issued_now(token@, user_id@, kind, secret@, now),
{
    let now = unix_now();
    let r = create_token_at(user_id, kind, secret, now);
    proof {
        if let Ok(token) = &r {
            assert(issued_now(token@, user_id@, kind, secret@, now as int));
        }
    }
    r
}

/// Issues an access token to `user_id`, signed with `access_secret`. This
/// succeeds always.
pub fn create_access_token(user_id: &str, access_secret: &[u8]) -> (r: Result<String, JwtError>)
    ensures
        r matches Ok(token) && exists|now: int| #[trigger]
            issued_now(token@, user_id@, TokenKind::Access, access_secret@, now),
{
    create_token(user_id, TokenKind::Access, access_secret)
}

/// Issues a refresh token to `user_id`, signed with `refresh_secret`. This
/// succeeds always.
pub fn create_refresh_token(user_id: &str, refresh_secret: &[u8]) -> (r: Result<String, JwtError>)
    ensures
        r matches Ok(token) && exists|now: int| #[trigger]
            issued_now(token@, user_id@, TokenKind::Refresh, refresh_secret@, now),
{
    create_token(user_id, TokenKind::Refresh, refresh_secret)
}

/// Decides on a token from the outcome of its signature check, and says
/// why a token is rejected. The reason is for logging; it is not for the
/// one who presented the token.
pub fn check_claims(decoded: Option<Claims>, expected: TokenKind, now: i64) -> (r: Result<
    Claims,
    JwtError,
>)
    ensures
        outcome_view(r) == verdict(decoded_view(decoded), expected, now as int),
{
    match decoded {
        None => Err(JwtError::TokenDecodingError),
        Some(claims) => {
            if claims.exp < now {
                Err(JwtError::TokenExpired)
            } else if !same_text(claims.token_type.as_str(), expected.label()) {
                Err(JwtError::InvalidTokenType)
            } else {
                Ok(claims)
            }
        },
    }
}

/// Checks `token` against `secret` as of the time `now`, where a token of
/// kind `expected` is asked for. A token that is malformed, signed with
/// another key, expired or of the other kind is answered with
/// [`JwtError::Invalid`], and with nothing that tells these apart.
pub fn verify_token_at(token: &str, secret: &[u8], expected: TokenKind, now: i64) -> (r: Result<
    Claims,
    JwtError,
>)
    ensures
        outcome_view(r) == answer(jwt_decoding(token@, secret@), expected, now as int),
{
    match check_claims(decode_claims(token, secret), expected, now) {
        Ok(claims) => Ok(claims),
        Err(_) => Err(JwtError::Invalid),
    }
}

/// Checks `token` against `secret` as of the present time, where a token of
/// kind `expected` is asked for.
pub fn verify_token(token: &str, secret: &[u8], expected: TokenKind) -> (r: Result<
    Claims,
    JwtError,
>)
    ensures
        exists|now: int|
            is_clock_reading(now) && outcome_view(r) == #[trigger] answer(
                jwt_decoding(token@, secret@),
                expected,
                now,
            ),
{
    let now = unix_now();
    verify_token_at(token, secret, expected, now)
}

/// Checks an access token against `access_secret`.
pub fn verify_access_token(token: &str, access_secret: &[u8]) -> (r: Result<Claims, JwtError>)
    ensures
        exists|now: int|
            is_clock_reading(now) && outcome_view(r) == #[trigger] answer(
                jwt_decoding(token@, access_secret@),
                TokenKind::Access,
                now,
            ),
{
    verify_token(token, access_secret, TokenKind::Access)
}

/// Checks a refresh token against `refresh_secret`.
pub fn verify_refresh_token(token: &str, refresh_secret: &[u8]) -> (r: Result<Claims, JwtError>)
    ensures
        exists|now: int|
            is_clock_reading(now) && outcome_view(r) == #[trigger] answer(
                jwt_decoding(token@, refresh_secret@),
                TokenKind::Refresh,
                now,
            ),
{
    verify_token(token, refresh_secret, TokenKind::Refresh)
}

/// A token that is not accepted is answered in one way, whatever the
/// reason.
pub proof fn law_one_answer_to_every_rejection(
    decoded: Option<ClaimsView>,
    expected: TokenKind,
    now: int,
)
    ensures
        answer(decoded, expected, now) is Ok <==> verdict(decoded, expected, now) is Ok,
        verdict(decoded, expected, now) is Err ==> answer(decoded, expected, now) == Err::<
            ClaimsView,
            JwtError,
        >(JwtError::Invalid),
        answer(decoded, expected, now) matches Ok(claims) ==> decoded == Some(claims),
{
}

/// A token whose expiry lies in the past is rejected, whether or not its
/// signature is good.
pub proof fn law_expired_is_rejected(decoded: Option<ClaimsView>, expected: TokenKind, now: int)
    requires
        decoded matches Some(claims) ==> claims.exp < now,
    ensures
        answer(decoded, expected, now) == Err::<ClaimsView, JwtError>(JwtError::Invalid),
        decoded is Some ==> verdict(decoded, expected, now) == Err::<ClaimsView, JwtError>(
            JwtError::TokenExpired,
        ),
{
}

/// A token of one kind is rejected where the other kind is asked for.
pub proof fn law_wrong_kind_is_rejected(claims: ClaimsView, expected: TokenKind, now: int)
    requires
        claims.token_type != expected.label_text(),
    ensures
        answer(Some(claims), expected, now) == Err::<ClaimsView, JwtError>(JwtError::Invalid),
{
}

/// A refresh token is rejected where an access token is asked for, at any
/// time and whoever it was issued to.
pub proof fn law_refresh_is_no_access(subject: Seq<char>, issued_at: int, now: int)
    ensures
        answer(
            Some(claims_for(subject, TokenKind::Refresh, issued_at)),
            TokenKind::Access,
            now,
        ) == Err::<ClaimsView, JwtError>(JwtError::Invalid),
{
    lemma_labels_differ();
}

/// A token that was issued is accepted under its own secret exactly where
/// its own kind is asked for and its expiry has not passed.
pub proof fn law_issued_token_is_accepted_until_expiry(
    token: Seq<char>,
    subject: Seq<char>,
    kind: TokenKind,
    secret: Seq<u8>,
    issued_at: int,
    expected: TokenKind,
    now: int,
)
    requires
        issued_now(token, subject, kind, secret, issued_at),
    ensures
        answer(jwt_decoding(token, secret), expected, now) is Ok <==> expected == kind && now
            <= issued_at + kind.lifetime_secs(),
        answer(jwt_decoding(token, secret), expected, now) matches Ok(claims) ==> claims
            == claims_for(subject, kind, issued_at),
{
    lemma_labels_differ();
}

/// Claims issued at `issued_at` are accepted for their own kind from then
/// until they expire.
pub proof fn law_fresh_claims_are_accepted(
    subject: Seq<char>,
    kind: TokenKind,
    issued_at: int,
    now: int,
)
    requires
        issued_at <= now <= issued_at + kind.lifetime_secs(),
    ensures
        verdict(Some(claims_for(subject, kind, issued_at)), kind, now) == Ok::<
            ClaimsView,
            JwtError,
        >(claims_for(subject, kind, issued_at)),
{
}

} // verus!
