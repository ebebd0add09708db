//! A token service bound to the keys of one caller.

use vstd::prelude::*;
use vstd::slice::slice_to_vec;
use crate::jwt::claims::{Claims, TokenKind};
use crate::jwt::codec::jwt_decoding;
use crate::jwt::error::JwtError;
use crate::clock::is_clock_reading;
use crate::jwt::jwt::{answer, create_token, issued_now, outcome_view, verify_token};

verus! {

/// Issues and checks tokens with one key for access tokens and one for
/// refresh tokens, both supplied by the caller.
pub struct JwtManager {
    access_secret: Vec<u8>,
    refresh_secret: Vec<u8>,
}

impl JwtManager {
    /// The key that access tokens are signed with.
    pub closed spec fn access_key(&self) -> Seq<u8> {
        self.access_secret@
    }

    /// The key that refresh tokens are signed with.
    pub closed spec fn refresh_key(&self) -> Seq<u8> {
        self.refresh_secret@
    }

    /// A manager that signs with the two given keys.
    pub fn new(access_secret: &[u8], refresh_secret: &[u8]) -> (manager: Self)
        ensures
            manager.access_key() == access_secret@,
            manager.refresh_key() == refresh_secret@,
    {
        JwtManager {
            access_secret: slice_to_vec(access_secret),
            refresh_secret: slice_to_vec(refresh_secret),
        }
    }

    /// Issues an access token to `user_id`. This succeeds always.
    pub fn create_access_token(&self, user_id: &str) -> (r: Result<String, JwtError>)
        ensures
            r matches Ok(token) && exists|now: int| #[trigger]
                issued_now(token@, user_id@, TokenKind::Access, self.access_key(), now),
    {
        let r = create_token(user_id, TokenKind::Access, self.access_secret.as_slice());
        proof {
            if let Ok(token) = &r {
                let now = choose|now: int| #[trigger]
                    issued_now(token@, user_id@, TokenKind::Access, self.access_secret@, now);
                assert(issued_now(token@, user_id@, TokenKind::Access, self.access_key(), now));
            }
        }
        r
    }

    /// Issues a refresh token to `user_id`. This succeeds always.
    pub fn create_refresh_token(&self, user_id: &str) -> (r: Result<String, JwtError>)
        ensures
            r matches Ok(token) && exists|now: int| #[trigger]
                issued_now(token@, user_id@, TokenKind::Refresh, self.refresh_key(), now),
    {
        let r = create_token(user_id, TokenKind::Refresh, self.refresh_secret.as_slice());
        proof {
            if let Ok(token) = &r {
                let now = choose|now: int| #[trigger]
                    issued_now(token@, user_id@, TokenKind::Refresh, self.refresh_secret@, now);
                assert(issued_now(token@, user_id@, TokenKind::Refresh, self.refresh_key(), now));
            }
        }
        r
    }

    /// Checks an access token. A token that is not accepted is answered with
    /// [`JwtError::Invalid`].
    pub fn verify_access_token(&self, token: &str) -> (r: Result<Claims, JwtError>)
        ensures
            exists|now: int|
                is_clock_reading(now) && outcome_view(r) == #[trigger] answer(
                    jwt_decoding(token@, self.access_key()),
                    TokenKind::Access,
                    now,
                ),
    {
        verify_token(token, self.access_secret.as_slice(), TokenKind::Access)
    }

    /// Checks a refresh token. A token that is not accepted is answered with
    /// [`JwtError::Invalid`].
    pub fn verify_refresh_token(&self, token: &str) -> (r: Result<Claims, JwtError>)
        ensures
            exists|now: int|
                is_clock_reading(now) && outcome_view(r) == #[trigger] answer(
                    jwt_decoding(token@, self.refresh_key()),
                    TokenKind::Refresh,
                    now,
                ),
    {
        verify_token(token, self.refresh_secret.as_slice(), TokenKind::Refresh)
    }
}

} // verus!
