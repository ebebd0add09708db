//! The credential store as mathematics: five tables, what makes them
//! consistent, and what each operation does to them.

use vstd::prelude::*;
use crate::db::error::DatabaseError;
use crate::models::auth::{SecretView, SessionView, VerificationTokenView};
use crate::models::users::{UserStatus, UserView};

verus! {

/// Seconds for which a one-time token can be redeemed: one day.
pub open spec fn one_time_token_lifetime() -> int {
    86_400
}

/// Row `i` of `users` has the address `email`.
pub open spec fn email_at(users: Seq<UserView>, email: Seq<char>, i: int) -> bool {
    0 <= i < users.len() && users[i].email == email
}

/// Some user has the address `email`.
pub open spec fn has_email(users: Seq<UserView>, email: Seq<char>) -> bool {
    exists|i: int| email_at(users, email, i)
}

/// A row of `users` with the address `email`, where there is one.
pub open spec fn email_index(users: Seq<UserView>, email: Seq<char>) -> int {
    choose|i: int| email_at(users, email, i)
}

/// Row `i` of `users` has the identifier `id`.
pub open spec fn user_at(users: Seq<UserView>, id: Seq<char>, i: int) -> bool {
    0 <= i < users.len() && users[i].id == id
}

/// Some user has the identifier `id`.
pub open spec fn has_user(users: Seq<UserView>, id: Seq<char>) -> bool {
    exists|i: int| user_at(users, id, i)
}

/// A row of `users` with the identifier `id`, where there is one.
pub open spec fn user_index(users: Seq<UserView>, id: Seq<char>) -> int {
    choose|i: int| user_at(users, id, i)
}

/// Row `i` of `secrets` belongs to the user `user_id`.
pub open spec fn secret_of_at(secrets: Seq<SecretView>, user_id: Seq<char>, i: int) -> bool {
    0 <= i < secrets.len() && secrets[i].user_id == user_id
}

/// The user `user_id` has a secret.
pub open spec fn has_secret_of(secrets: Seq<SecretView>, user_id: Seq<char>) -> bool {
    exists|i: int| secret_of_at(secrets, user_id, i)
}

/// A row of `secrets` that belongs to `user_id`, where there is one.
pub open spec fn secret_of_index(secrets: Seq<SecretView>, user_id: Seq<char>) -> int {
    choose|i: int| secret_of_at(secrets, user_id, i)
}

/// Row `i` of `secrets` has the identifier `id`.
pub open spec fn secret_id_at(secrets: Seq<SecretView>, id: Seq<char>, i: int) -> bool {
    0 <= i < secrets.len() && secrets[i].id == id
}

/// Some secret has the identifier `id`.
pub open spec fn has_secret_id(secrets: Seq<SecretView>, id: Seq<char>) -> bool {
    exists|i: int| secret_id_at(secrets, id, i)
}

/// Row `i` of `tokens` holds the one-time token `token`.
pub open spec fn token_at(tokens: Seq<VerificationTokenView>, token: Seq<char>, i: int) -> bool {
    0 <= i < tokens.len() && tokens[i].token == token
}

/// The table holds the one-time token `token`.
pub open spec fn has_token(tokens: Seq<VerificationTokenView>, token: Seq<char>) -> bool {
    exists|i: int| token_at(tokens, token, i)
}

/// A row of `tokens` that holds `token`, where there is one.
pub open spec fn token_index(tokens: Seq<VerificationTokenView>, token: Seq<char>) -> int {
    choose|i: int| token_at(tokens, token, i)
}

/// Row `i` of `sessions` holds the refresh token `refresh_token`.
pub open spec fn session_at(sessions: Seq<SessionView>, refresh_token: Seq<char>, i: int) -> bool {
    0 <= i < sessions.len() && sessions[i].refresh_token == refresh_token
}

/// Some session holds the refresh token `refresh_token`.
pub open spec fn has_session(sessions: Seq<SessionView>, refresh_token: Seq<char>) -> bool {
    exists|i: int| session_at(sessions, refresh_token, i)
}

/// A row of `sessions` that holds `refresh_token`, where there is one.
pub open spec fn session_index(sessions: Seq<SessionView>, refresh_token: Seq<char>) -> int {
    choose|i: int| session_at(sessions, refresh_token, i)
}

/// Row `i` of `sessions` belongs to the user `user_id`.
pub open spec fn session_of_at(sessions: Seq<SessionView>, user_id: Seq<char>, i: int) -> bool {
    0 <= i < sessions.len() && sessions[i].user_id == user_id
}

/// The user `user_id` has a session.
pub open spec fn has_session_of(sessions: Seq<SessionView>, user_id: Seq<char>) -> bool {
    exists|i: int| session_of_at(sessions, user_id, i)
}

/// A row of `sessions` that belongs to `user_id`, where there is one.
pub open spec fn session_of_index(sessions: Seq<SessionView>, user_id: Seq<char>) -> int {
    choose|i: int| session_of_at(sessions, user_id, i)
}

/// No address and no identifier occurs twice among the users.
pub open spec fn users_consistent(users: Seq<UserView>) -> bool {
    &&& forall|i: int, j: int|
        0 <= i < j < users.len() ==> (#[trigger] users[i]).email != (#[trigger] users[j]).email
    &&& forall|i: int, j: int|
        0 <= i < j < users.len() ==> (#[trigger] users[i]).id != (#[trigger] users[j]).id
}

/// Every secret belongs to a user, no user has two, and no identifier
/// occurs twice.
pub open spec fn secrets_consistent(users: Seq<UserView>, secrets: Seq<SecretView>) -> bool {
    &&& forall|i: int| 0 <= i < secrets.len() ==> has_user(users, (#[trigger] secrets[i]).user_id)
    &&& forall|i: int, j: int|
        0 <= i < j < secrets.len() ==> (#[trigger] secrets[i]).user_id != (
        #[trigger] secrets[j]).user_id
    &&& forall|i: int, j: int|
        0 <= i < j < secrets.len() ==> (#[trigger] secrets[i]).id != (#[trigger] secrets[j]).id
}

/// Every one-time token belongs to a user, and none occurs twice.
pub open spec fn tokens_consistent(
    users: Seq<UserView>,
    tokens: Seq<VerificationTokenView>,
) -> bool {
    &&& forall|i: int| 0 <= i < tokens.len() ==> has_user(users, (#[trigger] tokens[i]).user_id)
    &&& forall|i: int, j: int|
        0 <= i < j < tokens.len() ==> (#[trigger] tokens[i]).token != (#[trigger] tokens[j]).token
}

/// Every session belongs to a user, no user has two, and no refresh token
/// occurs twice.
pub open spec fn sessions_consistent(users: Seq<UserView>, sessions: Seq<SessionView>) -> bool {
    &&& forall|i: int|
        0 <= i < sessions.len() ==> has_user(users, (#[trigger] sessions[i]).user_id)
    &&& forall|i: int, j: int|
        0 <= i < j < sessions.len() ==> (#[trigger] sessions[i]).user_id != (
        #[trigger] sessions[j]).user_id
    &&& forall|i: int, j: int|
        0 <= i < j < sessions.len() ==> (#[trigger] sessions[i]).refresh_token != (
        #[trigger] sessions[j]).refresh_token
}

/// The sessions without that of `user_id`.
pub open spec fn sessions_without(sessions: Seq<SessionView>, user_id: Seq<char>) -> Seq<
    SessionView,
> {
    if has_session_of(sessions, user_id) {
        sessions.remove(session_of_index(sessions, user_id))
    } else {
        sessions
    }
}

/// The contents of the credential store.
pub struct DatabaseView {
    pub users: Seq<UserView>,
    pub secrets: Seq<SecretView>,
    pub verification_tokens: Seq<VerificationTokenView>,
    pub password_resets: Seq<VerificationTokenView>,
    pub sessions: Seq<SessionView>,
}

impl DatabaseView {
    /// The store without any record.
    pub open spec fn empty() -> DatabaseView {
        DatabaseView {
            users: Seq::empty(),
            secrets: Seq::empty(),
            verification_tokens: Seq::empty(),
            password_resets: Seq::empty(),
            sessions: Seq::empty(),
        }
    }

    /// The constraints that the store maintains.
    pub open spec fn wf(self) -> bool {
        &&& users_consistent(self.users)
        &&& secrets_consistent(self.users, self.secrets)
        &&& tokens_consistent(self.users, self.verification_tokens)
        &&& tokens_consistent(self.users, self.password_resets)
        &&& sessions_consistent(self.users, self.sessions)
    }

    /// The user with the address `email`.
    pub open spec fn user_by_email(self, email: Seq<char>) -> Option<UserView> {
        if has_email(self.users, email) {
            Some(self.users[email_index(self.users, email)])
        } else {
            None
        }
    }

    /// The user with the identifier `id`.
    pub open spec fn user_by_id(self, id: Seq<char>) -> Option<UserView> {
        if has_user(self.users, id) {
            Some(self.users[user_index(self.users, id)])
        } else {
            None
        }
    }

    /// The secret of the user `user_id`.
    pub open spec fn secret_of(self, user_id: Seq<char>) -> Option<SecretView> {
        if has_secret_of(self.secrets, user_id) {
            Some(self.secrets[secret_of_index(self.secrets, user_id)])
        } else {
            None
        }
    }

    /// The secret of the user with the address `email`.
    pub open spec fn secret_by_email(self, email: Seq<char>) -> Option<SecretView> {
        match self.user_by_email(email) {
            Some(user) => self.secret_of(user.id),
            None => None,
        }
    }

    /// The session that holds `refresh_token`.
    pub open spec fn session_by_token(self, refresh_token: Seq<char>) -> Option<SessionView> {
        if has_session(self.sessions, refresh_token) {
            Some(self.sessions[session_index(self.sessions, refresh_token)])
        } else {
            None
        }
    }

    /// Whether a user with this identifier and address can be added:
    /// `Conflict` where the address is taken, `Internal` where the
    /// identifier is.
    pub open spec fn user_insertable(self, id: Seq<char>, email: Seq<char>) -> Result<
        (),
        DatabaseError,
    > {
        if has_email(self.users, email) {
            Err(DatabaseError::Conflict)
        } else if has_user(self.users, id) {
            Err(DatabaseError::Internal)
        } else {
            Ok(())
        }
    }

    /// Whether a user and its secret can be added together: as for the user
    /// alone, and `Internal` where the secret's identifier is taken.
    pub open spec fn pair_insertable(
        self,
        id: Seq<char>,
        secret_id: Seq<char>,
        email: Seq<char>,
    ) -> Result<(), DatabaseError> {
        if has_email(self.users, email) {
            Err(DatabaseError::Conflict)
        } else if has_user(self.users, id) || has_secret_id(self.secrets, secret_id) {
            Err(DatabaseError::Internal)
        } else {
            Ok(())
        }
    }

    /// Whether a secret can be added for `user_id`: `NotFound` where there
    /// is no such user, `Conflict` where the user has a secret, `Internal`
    /// where the identifier is taken.
    pub open spec fn secret_insertable(self, id: Seq<char>, user_id: Seq<char>) -> Result<
        (),
        DatabaseError,
    > {
        if !has_user(self.users, user_id) {
            Err(DatabaseError::NotFound)
        } else if has_secret_of(self.secrets, user_id) {
            Err(DatabaseError::Conflict)
        } else if has_secret_id(self.secrets, id) {
            Err(DatabaseError::Internal)
        } else {
            Ok(())
        }
    }

    /// Whether a session can be opened for `user_id` with `refresh_token`:
    /// `NotFound` where there is no such user, `Conflict` where the token is
    /// in force for another user.
    pub open spec fn session_insertable(
        self,
        user_id: Seq<char>,
        refresh_token: Seq<char>,
    ) -> Result<(), DatabaseError> {
        if !has_user(self.users, user_id) {
            Err(DatabaseError::NotFound)
        } else if has_session(self.sessions, refresh_token) && self.sessions[session_index(
            self.sessions,
            refresh_token,
        )].user_id != user_id {
            Err(DatabaseError::Conflict)
        } else {
            Ok(())
        }
    }

    /// The store with one more user.
    pub open spec fn with_user(self, user: UserView) -> DatabaseView {
        DatabaseView { users: self.users.push(user), ..self }
    }

    /// The store with one more secret.
    pub open spec fn with_secret(self, secret: SecretView) -> DatabaseView {
        DatabaseView { secrets: self.secrets.push(secret), ..self }
    }

    /// The store with one more verification token.
    pub open spec fn with_verification_token(self, token: VerificationTokenView) -> DatabaseView {
        DatabaseView { verification_tokens: self.verification_tokens.push(token), ..self }
    }

    /// The store with one more password-reset token.
    pub open spec fn with_password_reset(self, token: VerificationTokenView) -> DatabaseView {
        DatabaseView { password_resets: self.password_resets.push(token), ..self }
    }

    /// The store without the verification token `token`.
    pub open spec fn without_verification_token(self, token: Seq<char>) -> DatabaseView {
        DatabaseView {
            verification_tokens: self.verification_tokens.remove(
                token_index(self.verification_tokens, token),
            ),
            ..self
        }
    }

    /// The store without the password-reset token `token`.
    pub open spec fn without_password_reset(self, token: Seq<char>) -> DatabaseView {
        DatabaseView {
            password_resets: self.password_resets.remove(token_index(self.password_resets, token)),
            ..self
        }
    }

    /// The store in which `session` has taken the place of any session of
    /// the same user.
    pub open spec fn with_session(self, session: SessionView) -> DatabaseView {
        DatabaseView {
            sessions: sessions_without(self.sessions, session.user_id).push(session),
            ..self
        }
    }

    /// The store without the session that holds `refresh_token`.
    pub open spec fn without_session(self, refresh_token: Seq<char>) -> DatabaseView {
        if has_session(self.sessions, refresh_token) {
            DatabaseView {
                sessions: self.sessions.remove(session_index(self.sessions, refresh_token)),
                ..self
            }
        } else {
            self
        }
    }

    /// The store in which the user `id` is active.
    pub open spec fn with_active(self, id: Seq<char>) -> DatabaseView {
        let i = user_index(self.users, id);
        DatabaseView {
            users: self.users.update(i, UserView { status: UserStatus::Active, ..self.users[i] }),
            ..self
        }
    }

    /// The store in which the user `id` has the password digest
    /// `password_hash`.
    pub open spec fn with_password_hash(
        self,
        id: Seq<char>,
        password_hash: Seq<char>,
    ) -> DatabaseView {
        let i = user_index(self.users, id);
        DatabaseView {
            users: self.users.update(i, UserView { password_hash, ..self.users[i] }),
            ..self
        }
    }

    /// The store in which the user `id` has last logged in at `now`.
    pub open spec fn with_login(self, id: Seq<char>, now: int) -> DatabaseView {
        let i = user_index(self.users, id);
        DatabaseView {
            users: self.users.update(i, UserView { last_login: Some(now), ..self.users[i] }),
            ..self
        }
    }
}

/// Whether `token` can be redeemed from `tokens` at `now`: `NotFound` where
/// the table does not hold it, `Expired` where its time has passed.
pub open spec fn redeemable(
    tokens: Seq<VerificationTokenView>,
    token: Seq<char>,
    now: int,
) -> Result<(), DatabaseError> {
    if !has_token(tokens, token) {
        Err(DatabaseError::NotFound)
    } else if tokens[token_index(tokens, token)].expires_at < now {
        Err(DatabaseError::Expired)
    } else {
        Ok(())
    }
}

/// Whether a one-time token can be issued to `user_id` at `now`: `NotFound`
/// where there is no such user, `Conflict` where the table holds the token,
/// `Internal` where the expiry does not fit.
pub open spec fn issuable(
    users: Seq<UserView>,
    tokens: Seq<VerificationTokenView>,
    token: Seq<char>,
    user_id: Seq<char>,
    now: int,
) -> Result<(), DatabaseError> {
    if !has_user(users, user_id) {
        Err(DatabaseError::NotFound)
    } else if has_token(tokens, token) {
        Err(DatabaseError::Conflict)
    } else if now + one_time_token_lifetime() > i64::MAX {
        Err(DatabaseError::Internal)
    } else {
        Ok(())
    }
}

/// The one-time token issued to `user_id` at `now`.
pub open spec fn one_time_token(
    token: Seq<char>,
    user_id: Seq<char>,
    now: int,
) -> VerificationTokenView {
    VerificationTokenView { user_id, token, expires_at: now + one_time_token_lifetime() }
}

} // verus!
