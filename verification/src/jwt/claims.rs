//! What a token asserts.

use vstd::prelude::*;

verus! {

/// The two kinds of token.
#[derive(Debug, Clone, Copy, PartialEq, Eq, Structural)]
pub enum TokenKind {
    /// Presented with each request; lives for fifteen minutes.
    Access,
    /// Exchanged for a new access token; lives for seven days.
    Refresh,
}

impl TokenKind {
    /// The text that marks a token of this kind in its claims.
    pub open spec fn label_text(self) -> Seq<char> {
        match self {
            TokenKind::Access => "access"@,
            TokenKind::Refresh => "refresh"@,
        }
    }

    /// The text that marks a token of this kind in its claims.
    pub fn label(self) -> (s: &'static str)
        ensures
            s@ == self.label_text(),
    {
        match self {
            TokenKind::Access => "access",
            TokenKind::Refresh => "refresh",
        }
    }

    /// Seconds between the issue of a token of this kind and its expiry.
    pub open spec fn lifetime_secs(self) -> int {
        match self {
            TokenKind::Access => 900,
            TokenKind::Refresh => 604_800,
        }
    }

    /// Seconds between the issue of a token of this kind and its expiry.
    pub fn lifetime(self) -> (secs: i64)
        ensures
            secs == self.lifetime_secs(),
    {
        match self {
            TokenKind::Access => 900,
            TokenKind::Refresh => 604_800,
        }
    }
}

/// The two kinds are told apart by their labels.
pub proof fn lemma_labels_differ()
    ensures
        TokenKind::Access.label_text() != TokenKind::Refresh.label_text(),
{
    reveal_strlit("access");
    reveal_strlit("refresh");
    assert("access"@.len() == 6);
    assert("refresh"@.len() == 7);
}

/// The claims carried by a token.
#[derive(Debug)]
pub struct Claims {
    /// The principal the token speaks for.
    pub sub: String,
    /// Expiry, in seconds since the epoch.
    pub exp: i64,
    /// Time of issue, in seconds since the epoch.
    pub iat: i64,
    /// The label of the token's kind.
    pub token_type: String,
}

/// The mathematical content of [`Claims`].
pub struct ClaimsView {
    pub sub: Seq<char>,
    pub exp: int,
    pub iat: int,
    pub token_type: Seq<char>,
}

impl View for Claims {
    type V = ClaimsView;

    open spec fn view(&self) -> ClaimsView {
        ClaimsView {
            sub: self.sub@,
            exp: self.exp as int,
            iat: self.iat as int,
            token_type: self.token_type@,
        }
    }
}

impl Clone for Claims {
    fn clone(&self) -> (res: Self)
        ensures
            res@ == self@,
    {
        Claims {
            sub: self.sub.clone(),
            exp: self.exp,
            iat: self.iat,
            token_type: self.token_type.clone(),
        }
    }
}

/// The claims of a token of kind `kind` issued to `subject` at `now`.
pub open spec fn claims_for(subject: Seq<char>, kind: TokenKind, now: int) -> ClaimsView {
    ClaimsView {
        sub: subject,
        exp: now + kind.lifetime_secs(),
        iat: now,
        token_type: kind.label_text(),
    }
}

} // verus!
