//! The credential store, held in memory.
//!
//! Every operation is one transaction: it succeeds as a whole or leaves the
//! store as it was.

use vstd::prelude::*;
use crate::clock::{is_clock_reading, unix_now};
use crate::db::error::DatabaseError;
use crate::db::lemmas::{
    lemma_email_index, lemma_push_keeps_users, lemma_push_session, lemma_push_token,
    lemma_remove_session, lemma_remove_token, lemma_secret_of_index, lemma_session_index,
    lemma_session_of_index, lemma_token_index, lemma_update_user, lemma_user_index,
    lemma_with_secret, lemma_with_user,
};
use crate::db::model::{
    email_at, has_email, has_secret_id, has_secret_of, has_session, has_session_of, has_token,
    has_user, issuable, one_time_token, one_time_token_lifetime, redeemable, secret_id_at,
    secret_of_at, session_at, session_index, session_of_at, token_at, token_index,
    tokens_consistent, user_at, DatabaseView,
};
use crate::ident::fresh_id;
use crate::models::auth::{
    Secret, SecretView, Session, SessionView, VerificationToken, VerificationTokenView,
};
use crate::models::users::{new_user, User, UserStatus, UserView};
use crate::text::same_text;

verus! {

/// The views of the rows of the user table.
pub open spec fn user_views(rows: Seq<User>) -> Seq<UserView> {
    Seq::new(rows.len(), |i: int| rows[i]@)
}

/// The views of the rows of the secret table.
pub open spec fn secret_views(rows: Seq<Secret>) -> Seq<SecretView> {
    Seq::new(rows.len(), |i: int| rows[i]@)
}

/// The views of the rows of a table of one-time tokens.
pub open spec fn token_views(rows: Seq<VerificationToken>) -> Seq<VerificationTokenView> {
    Seq::new(rows.len(), |i: int| rows[i]@)
}

/// The views of the rows of the session table.
pub open spec fn session_views(rows: Seq<Session>) -> Seq<SessionView> {
    Seq::new(rows.len(), |i: int| rows[i]@)
}

/// Whether an operation that returns a user succeeded, and with which error
/// it failed.
pub open spec fn user_outcome(r: Result<User, DatabaseError>) -> Result<(), DatabaseError> {
    match r {
        Ok(_) => Ok(()),
        Err(e) => Err(e),
    }
}

/// Seconds for which a one-time token can be redeemed.
pub fn token_lifetime() -> (secs: i64)
    ensures
        secs == one_time_token_lifetime(),
{
    86_400
}

/// The identifier of a record, without its contents.
#[derive(Debug)]
pub struct Record {
    pub id: String,
}

/// The credential store.
pub struct Database {
    users: Vec<User>,
    secrets: Vec<Secret>,
    verification_tokens: Vec<VerificationToken>,
    password_resets: Vec<VerificationToken>,
    sessions: Vec<Session>,
}

impl View for Database {
    type V = DatabaseView;

    closed spec fn view(&self) -> DatabaseView {
        DatabaseView {
            users: user_views(self.users@),
            secrets: secret_views(self.secrets@),
            verification_tokens: token_views(self.verification_tokens@),
            password_resets: token_views(self.password_resets@),
            sessions: session_views(self.sessions@),
        }
    }
}

/// The row of the user with the address `email`, if there is one.
fn find_email(users: &Vec<User>, email: &str) -> (r: Option<usize>)
    ensures
        match r {
            Some(i) => email_at(user_views(users@), email@, i as int),
            None => !has_email(user_views(users@), email@),
        },
{
    let wanted = email.to_owned();
    let mut i: usize = 0;
    while i < users.len()
        invariant
            wanted@ == email@,
            i <= users.len(),
            forall|j: int| 0 <= j < i ==> !email_at(user_views(users@), email@, j),
        decreases users.len() - i,
    {
        if users[i].email == wanted {
            return Some(i);
        }
        i += 1;
    }
    None
}

/// The row of the user with the identifier `id`, if there is one.
fn find_user(users: &Vec<User>, id: &str) -> (r: Option<usize>)
    ensures
        match r {
            Some(i) => user_at(user_views(users@), id@, i as int),
            None => !has_user(user_views(users@), id@),
        },
{
    let wanted = id.to_owned();
    let mut i: usize = 0;
    while i < users.len()
        invariant
            wanted@ == id@,
            i <= users.len(),
            forall|j: int| 0 <= j < i ==> !user_at(user_views(users@), id@, j),
        decreases users.len() - i,
    {
        if users[i].id == wanted {
            return Some(i);
        }
        i += 1;
    }
    None
}

/// The row of the secret of the user `user_id`, if there is one.
fn find_secret_of(secrets: &Vec<Secret>, user_id: &str) -> (r: Option<usize>)
    ensures
        match r {
            Some(i) => secret_of_at(secret_views(secrets@), user_id@, i as int),
            None => !has_secret_of(secret_views(secrets@), user_id@),
        },
{
    let wanted = user_id.to_owned();
    let mut i: usize = 0;
    while i < secrets.len()
        invariant
            wanted@ == user_id@,
            i <= secrets.len(),
            forall|j: int| 0 <= j < i ==> !secret_of_at(secret_views(secrets@), user_id@, j),
        decreases secrets.len() - i,
    {
        if secrets[i].user_id == wanted {
            return Some(i);
        }
        i += 1;
    }
    None
}

/// The row of the secret with the identifier `id`, if there is one.
fn find_secret_id(secrets: &Vec<Secret>, id: &str) -> (r: Option<usize>)
    ensures
        match r {
            Some(i) => secret_id_at(secret_views(secrets@), id@, i as int),
            None => !has_secret_id(secret_views(secrets@), id@),
        },
{
    let wanted = id.to_owned();
    let mut i: usize = 0;
    while i < secrets.len()
        invariant
            wanted@ == id@,
            i <= secrets.len(),
            forall|j: int| 0 <= j < i ==> !secret_id_at(secret_views(secrets@), id@, j),
        decreases secrets.len() - i,
    {
        if secrets[i].id == wanted {
            return Some(i);
        }
        i += 1;
    }
    None
}

/// The row that holds the one-time token `token`, if there is one.
fn find_token(tokens: &Vec<VerificationToken>, token: &str) -> (r: Option<usize>)
    ensures
        match r {
            Some(i) => token_at(token_views(tokens@), token@, i as int),
            None => !has_token(token_views(tokens@), token@),
        },
{
    let wanted = token.to_owned();
    let mut i: usize = 0;
    while i < tokens.len()
        invariant
            wanted@ == token@,
            i <= tokens.len(),
            forall|j: int| 0 <= j < i ==> !token_at(token_views(tokens@), token@, j),
        decreases tokens.len() - i,
    {
        if tokens[i].token == wanted {
            return Some(i);
        }
        i += 1;
    }
    None
}

/// The row of the session that holds `refresh_token`, if there is one.
fn find_session(sessions: &Vec<Session>, refresh_token: &str) -> (r: Option<usize>)
    ensures
        match r {
            Some(i) => session_at(session_views(sessions@), refresh_token@, i as int),
            None => !has_session(session_views(sessions@), refresh_token@),
        },
{
    let wanted = refresh_token.to_owned();
    let mut i: usize = 0;
    while i < sessions.len()
        invariant
            wanted@ == refresh_token@,
            i <= sessions.len(),
            forall|j: int| 0 <= j < i ==> !session_at(session_views(sessions@), refresh_token@, j),
        decreases sessions.len() - i,
    {
        if sessions[i].refresh_token == wanted {
            return Some(i);
        }
        i += 1;
    }
    None
}

/// The row of the session of the user `user_id`, if there is one.
fn find_session_of(sessions: &Vec<Session>, user_id: &str) -> (r: Option<usize>)
    ensures
        match r {
            Some(i) => session_of_at(session_views(sessions@), user_id@, i as int),
            None => !has_session_of(session_views(sessions@), user_id@),
        },
{
    let wanted = user_id.to_owned();
    let mut i: usize = 0;
    while i < sessions.len()
        invariant
            wanted@ == user_id@,
            i <= sessions.len(),
            forall|j: int| 0 <= j < i ==> !session_of_at(session_views(sessions@), user_id@, j),
        decreases sessions.len() - i,
    {
        if sessions[i].user_id == wanted {
            return Some(i);
        }
        i += 1;
    }
    None
}

/// Adds a one-time token for `user_id` to `tokens`, to expire a day after
/// `now`.
fn issue_into(
    tokens: &mut Vec<VerificationToken>,
    users: &Vec<User>,
    token: String,
    user_id: &str,
    now: i64,
) -> (r: Result<VerificationToken, DatabaseError>)
    requires
        tokens_consistent(user_views(users@), token_views(old(tokens)@)),
    ensures
        tokens_consistent(user_views(users@), token_views(final(tokens)@)),
        match r {
            Ok(issued) => {
                &&& issuable(
                    user_views(users@),
                    token_views(old(tokens)@),
                    token@,
                    user_id@,
                    now as int,
                ) is Ok
                &&& issued@ == one_time_token(token@, user_id@, now as int)
                &&& token_views(final(tokens)@) == token_views(old(tokens)@).push(issued@)
            },
            Err(e) => {
                &&& issuable(
                    user_views(users@),
                    token_views(old(tokens)@),
                    token@,
                    user_id@,
                    now as int,
                ) == Err::<(), DatabaseError>(e)
                &&& final(tokens)@ == old(tokens)@
            },
        },
{
    if find_user(users, user_id).is_none() {
        return Err(DatabaseError::NotFound);
    }
    if find_token(tokens, token.as_str()).is_some() {
        return Err(DatabaseError::Conflict);
    }
    let expires_at = match now.checked_add(token_lifetime()) {
        Some(t) => t,
        None => {
            return Err(DatabaseError::Internal);
        },
    };
    let issued = VerificationToken { user_id: user_id.to_owned(), token, expires_at };
    let stored = issued.clone();
    proof {
        lemma_push_token(user_views(users@), token_views(tokens@), issued@);
    }
    tokens.push(stored);
    assert(token_views(tokens@) =~= token_views(old(tokens)@).push(issued@));
    Ok(issued)
}

/// Takes `token` out of `tokens`, unless it is missing or its time has
/// passed at `now`.
fn redeem_from(
    tokens: &mut Vec<VerificationToken>,
    users: &Vec<User>,
    token: &str,
    now: i64,
) -> (r: Result<VerificationToken, DatabaseError>)
    requires
        tokens_consistent(user_views(users@), token_views(old(tokens)@)),
    ensures
        tokens_consistent(user_views(users@), token_views(final(tokens)@)),
        match r {
            Ok(redeemed) => {
                &&& redeemable(token_views(old(tokens)@), token@, now as int) is Ok
                &&& redeemed@ == token_views(old(tokens)@)[token_index(
                    token_views(old(tokens)@),
                    token@,
                )]
                &&& has_user(user_views(users@), redeemed@.user_id)
                &&& token_views(final(tokens)@) == token_views(old(tokens)@).remove(
                    token_index(token_views(old(tokens)@), token@),
                )
                &&& !has_token(token_views(final(tokens)@), token@)
            },
            Err(e) => {
                &&& redeemable(token_views(old(tokens)@), token@, now as int) == Err::<
                    (),
                    DatabaseError,
                >(e)
                &&& final(tokens)@ == old(tokens)@
            },
        },
{
    let i = match find_token(tokens, token) {
        Some(i) => i,
        None => {
            return Err(DatabaseError::NotFound);
        },
    };
    proof {
        lemma_token_index(user_views(users@), token_views(tokens@), token@, i as int);
    }
    if tokens[i].expires_at < now {
        return Err(DatabaseError::Expired);
    }
    proof {
        lemma_remove_token(user_views(users@), token_views(tokens@), i as int);
    }
    let redeemed = tokens.remove(i);
    assert(token_views(tokens@) =~= token_views(old(tokens)@).remove(i as int));
    Ok(redeemed)
}

impl Database {
    /// Whether the tables are consistent.
    ///
    /// Every store is: [`Database::new`] makes a consistent one, every
    /// method keeps it so, and the tables cannot be reached in another way.
    /// The methods ask for it so that their proofs can rest on it.
    pub open spec fn wf(&self) -> bool {
        self@.wf()
    }

    /// A store without any record.
    pub fn new() -> (db: Database)
        ensures
            db.wf(),
            db@ == DatabaseView::empty(),
    {
        let db = Database {
            users: Vec::new(),
            secrets: Vec::new(),
            verification_tokens: Vec::new(),
            password_resets: Vec::new(),
            sessions: Vec::new(),
        };
        assert(db@.users =~= Seq::empty());
        assert(db@.secrets =~= Seq::empty());
        assert(db@.verification_tokens =~= Seq::empty());
        assert(db@.password_resets =~= Seq::empty());
        assert(db@.sessions =~= Seq::empty());
        db
    }

    /// Adds the user with the identifier `id`, created at `created_at`.
    ///
    /// The user is unverified and has never logged in. It has no secret yet,
    /// so no token can be issued to it.
    pub fn insert_user(
        &mut self,
        id: String,
        username: &str,
        email: &str,
        password_hash: &str,
        created_at: i64,
    ) -> (r: Result<User, DatabaseError>)
        requires
            old(self).wf(),
        ensures
            final(self).wf(),
            match r {
                Ok(user) => {
                    &&& old(self)@.user_insertable(id@, email@) is Ok
                    &&& user@ == new_user(
                        id@,
                        username@,
                        email@,
                        password_hash@,
                        created_at as int,
                    )
                    &&& final(self)@ == old(self)@.with_user(user@)
                },
                Err(e) => {
                    &&& old(self)@.user_insertable(id@, email@) == Err::<(), DatabaseError>(e)
                    &&& final(self)@ == old(self)@
                },
            },
    {
        if find_email(&self.users, email).is_some() {
            return Err(DatabaseError::Conflict);
        }
        if find_user(&self.users, id.as_str()).is_some() {
            return Err(DatabaseError::Internal);
        }
        let user = User {
            id,
            username: username.to_owned(),
            email: email.to_owned(),
            password_hash: password_hash.to_owned(),
            created_at,
            last_login: None,
            status: UserStatus::Unverified,
        };
        let stored = user.clone();
        proof {
            lemma_with_user(self@, user@);
        }
        self.users.push(stored);
        assert(self@.users =~= old(self)@.users.push(user@));
        Ok(user)
    }

    /// Adds a user under a fresh identifier, created now.
    ///
    /// `Conflict` is returned exactly where the address is taken. `Internal`
    /// is returned only where the identifier drawn is in use, so never in a
    /// store without users.
    pub fn create_user(&mut self, username: &str, email: &str, password_hash: &str) -> (r: Result<
        User,
        DatabaseError,
    >)
        requires
            old(self).wf(),
        ensures
            final(self).wf(),
            match r {
                Ok(user) => {
                    &&& old(self)@.user_insertable(user@.id, email@) is Ok
                    &&& user@ == new_user(
                        user@.id,
                        username@,
                        email@,
                        password_hash@,
                        user@.created_at,
                    )
                    &&& final(self)@ == old(self)@.with_user(user@)
                },
                Err(e) => {
                    &&& final(self)@ == old(self)@
                    &&& e == DatabaseError::Conflict <==> has_email(old(self)@.users, email@)
                    &&& e == DatabaseError::Conflict || e == DatabaseError::Internal
                },
            },
            old(self)@.users.len() == 0 ==> r is Ok,
            r matches Ok(user) ==> is_clock_reading(user@.created_at),
    {
        let id = fresh_id();
        let now = unix_now();
        self.insert_user(id, username, email, password_hash, now)
    }

    /// Adds a user and its secret in one step.
    ///
    /// Either both are added or neither: no user is left without a secret
    /// and no secret without a user.
    pub fn insert_user_with_secret(
        &mut self,
        id: String,
        secret_id: String,
        key_material: String,
        username: &str,
        email: &str,
        password_hash: &str,
        created_at: i64,
    ) -> (r: Result<(User, Secret), DatabaseError>)
        requires
            old(self).wf(),
        ensures
            final(self).wf(),
            match r {
                Ok((user, secret)) => {
                    &&& old(self)@.pair_insertable(id@, secret_id@, email@) is Ok
                    &&& user@ == new_user(
                        id@,
                        username@,
                        email@,
                        password_hash@,
                        created_at as int,
                    )
                    &&& secret@ == (SecretView {
                        id: secret_id@,
                        user_id: id@,
                        key_material: key_material@,
                    })
                    &&& final(self)@ == old(self)@.with_user(user@).with_secret(secret@)
                    &&& final(self)@.user_by_email(email@) == Some(user@)
                    &&& final(self)@.secret_of(id@) == Some(secret@)
                },
                Err(e) => {
                    &&& old(self)@.pair_insertable(id@, secret_id@, email@) == Err::<
                        (),
                        DatabaseError,
                    >(e)
                    &&& final(self)@ == old(self)@
                },
            },
    {
        if find_email(&self.users, email).is_some() {
            return Err(DatabaseError::Conflict);
        }
        if find_user(&self.users, id.as_str()).is_some() {
            return Err(DatabaseError::Internal);
        }
        if find_secret_id(&self.secrets, secret_id.as_str()).is_some() {
            return Err(DatabaseError::Internal);
        }
        let secret = Secret { id: secret_id, user_id: id.clone(), key_material };
        let user = User {
            id,
            username: username.to_owned(),
            email: email.to_owned(),
            password_hash: password_hash.to_owned(),
            created_at,
            last_login: None,
            status: UserStatus::Unverified,
        };
        let stored_user = user.clone();
        let stored_secret = secret.clone();
        proof {
            lemma_with_user(self@, user@);
            lemma_push_keeps_users(self@.users, user@);
            lemma_with_secret(self@.with_user(user@), secret@);
            let after = self@.with_user(user@).with_secret(secret@);
            assert(email_at(after.users, email@, self@.users.len() as int));
            lemma_email_index(after.users, email@, self@.users.len() as int);
        }
        self.users.push(stored_user);
        self.secrets.push(stored_secret);
        assert(self@.users =~= old(self)@.users.push(user@));
        assert(self@.secrets =~= old(self)@.secrets.push(secret@));
        Ok((user, secret))
    }

    /// Adds a user under a fresh identifier, with a fresh random secret, in
    /// one step.
    ///
    /// `Conflict` is returned exactly where the address is taken. `Internal`
    /// is returned only where an identifier drawn is in use, so never in a
    /// store without users. On any error the store is as it was.
    pub fn create_user_with_secret(
        &mut self,
        username: &str,
        email: &str,
        password_hash: &str,
    ) -> (r: Result<(User, Secret), DatabaseError>)
        requires
            old(self).wf(),
        ensures
            final(self).wf(),
            match r {
                Ok((user, secret)) => {
                    &&& old(self)@.pair_insertable(user@.id, secret@.id, email@) is Ok
                    &&& user@ == new_user(
                        user@.id,
                        username@,
                        email@,
                        password_hash@,
                        user@.created_at,
                    )
                    &&& secret@.user_id == user@.id
                    &&& final(self)@ == old(self)@.with_user(user@).with_secret(secret@)
                    &&& final(self)@.user_by_email(email@) == Some(user@)
                    &&& final(self)@.secret_of(user@.id) == Some(secret@)
                },
                Err(e) => {
                    &&& final(self)@ == old(self)@
                    &&& e == DatabaseError::Conflict <==> has_email(old(self)@.users, email@)
                    &&& e == DatabaseError::Conflict || e == DatabaseError::Internal
                },
            },
            old(self)@.users.len() == 0 ==> r is Ok,
            r matches Ok((user, secret)) ==> is_clock_reading(user@.created_at),
    {
        let id = fresh_id();
        let secret_id = fresh_id();
        let key_material = fresh_id();
        let now = unix_now();
        self.insert_user_with_secret(
            id,
            secret_id,
            key_material,
            username,
            email,
            password_hash,
            now,
        )
    }

    /// The number of users.
    pub fn user_count(&self) -> (n: usize)
        ensures
            n == self@.users.len(),
    {
        self.users.len()
    }

    /// The number of secrets.
    pub fn secret_count(&self) -> (n: usize)
        ensures
            n == self@.secrets.len(),
    {
        self.secrets.len()
    }

    /// The number of verification tokens that were issued and not redeemed.
    pub fn verification_token_count(&self) -> (n: usize)
        ensures
            n == self@.verification_tokens.len(),
    {
        self.verification_tokens.len()
    }

    /// The number of sessions.
    pub fn session_count(&self) -> (n: usize)
        ensures
            n == self@.sessions.len(),
    {
        self.sessions.len()
    }

    /// Whether some user has the address `email`.
    pub fn email_taken(&self, email: &str) -> (taken: bool)
        ensures
            taken == has_email(self@.users, email@),
    {
        find_email(&self.users, email).is_some()
    }

    /// Whether the table of password-reset tokens holds `token`.
    pub fn has_password_reset_token(&self, token: &str) -> (held: bool)
        ensures
            held == has_token(self@.password_resets, token@),
    {
        find_token(&self.password_resets, token).is_some()
    }

    /// Whether the table of verification tokens holds `token`.
    pub fn has_verification_token(&self, token: &str) -> (held: bool)
        ensures
            held == has_token(self@.verification_tokens, token@),
    {
        find_token(&self.verification_tokens, token).is_some()
    }

    /// The user with the address `email`.
    pub fn select_user_by_email(&self, email: &str) -> (r: Result<User, DatabaseError>)
        requires
            self.wf(),
        ensures
            match r {
                Ok(user) => self@.user_by_email(email@) == Some(user@),
                Err(e) => e == DatabaseError::NotFound && self@.user_by_email(email@) is None,
            },
    {
        match find_email(&self.users, email) {
            Some(i) => {
                proof {
                    lemma_email_index(self@.users, email@, i as int);
                }
                Ok(self.users[i].clone())
            },
            None => Err(DatabaseError::NotFound),
        }
    }

    /// The user with the identifier `id`.
    pub fn select_user_by_id(&self, id: &str) -> (r: Result<User, DatabaseError>)
        requires
            self.wf(),
        ensures
            match r {
                Ok(user) => self@.user_by_id(id@) == Some(user@),
                Err(e) => e == DatabaseError::NotFound && self@.user_by_id(id@) is None,
            },
    {
        match find_user(&self.users, id) {
            Some(i) => {
                proof {
                    lemma_user_index(self@.users, id@, i as int);
                }
                Ok(self.users[i].clone())
            },
            None => Err(DatabaseError::NotFound),
        }
    }

    /// Adds the secret with the identifier `id` for the user `user_id`.
    pub fn insert_secret(&mut self, id: String, user_id: &str, key_material: &str) -> (r: Result<
        Record,
        DatabaseError,
    >)
        requires
            old(self).wf(),
        ensures
            final(self).wf(),
            match r {
                Ok(record) => {
                    &&& old(self)@.secret_insertable(id@, user_id@) is Ok
                    &&& record.id@ == id@
                    &&& final(self)@ == old(self)@.with_secret(
                        SecretView { id: id@, user_id: user_id@, key_material: key_material@ },
                    )
                },
                Err(e) => {
                    &&& old(self)@.secret_insertable(id@, user_id@) == Err::<(), DatabaseError>(e)
                    &&& final(self)@ == old(self)@
                },
            },
    {
        if find_user(&self.users, user_id).is_none() {
            return Err(DatabaseError::NotFound);
        }
        if find_secret_of(&self.secrets, user_id).is_some() {
            return Err(DatabaseError::Conflict);
        }
        if find_secret_id(&self.secrets, id.as_str()).is_some() {
            return Err(DatabaseError::Internal);
        }
        let record = Record { id: id.clone() };
        let secret = Secret {
            id,
            user_id: user_id.to_owned(),
            key_material: key_material.to_owned(),
        };
        proof {
            lemma_with_secret(self@, secret@);
        }
        let ghost added = secret@;
        self.secrets.push(secret);
        assert(self@.secrets =~= old(self)@.secrets.push(added));
        Ok(record)
    }

    /// Adds a secret with the key material `token` for the user `user_id`,
    /// under a fresh identifier.
    ///
    /// `NotFound` is returned exactly where there is no such user, and
    /// `Conflict` exactly where the user has a secret already. `Internal` is
    /// returned only where the identifier drawn is in use, so never in a
    /// store without secrets.
    pub fn add_secret(&mut self, user_id: &str, token: &str) -> (r: Result<Record, DatabaseError>)
        requires
            old(self).wf(),
        ensures
            final(self).wf(),
            match r {
                Ok(record) => {
                    &&& old(self)@.secret_insertable(record.id@, user_id@) is Ok
                    &&& final(self)@ == old(self)@.with_secret(
                        SecretView { id: record.id@, user_id: user_id@, key_material: token@ },
                    )
                },
                Err(e) => {
                    &&& final(self)@ == old(self)@
                    &&& e == DatabaseError::NotFound <==> !has_user(old(self)@.users, user_id@)
                    &&& e == DatabaseError::Conflict <==> has_user(old(self)@.users, user_id@)
                        && has_secret_of(old(self)@.secrets, user_id@)
                    &&& e == DatabaseError::NotFound || e == DatabaseError::Conflict || e
                        == DatabaseError::Internal
                },
            },
            has_user(old(self)@.users, user_id@) && old(self)@.secrets.len() == 0 ==> r is Ok,
    {
        let id = fresh_id();
        self.insert_secret(id, user_id, token)
    }

    /// The secret of the user `user_id`.
    pub fn get_secret_for_user(&self, user_id: &str) -> (r: Result<Secret, DatabaseError>)
        requires
            self.wf(),
        ensures
            match r {
                Ok(secret) => self@.secret_of(user_id@) == Some(secret@),
                Err(e) => e == DatabaseError::NotFound && self@.secret_of(user_id@) is None,
            },
    {
        match find_secret_of(&self.secrets, user_id) {
            Some(i) => {
                proof {
                    lemma_secret_of_index(self@.users, self@.secrets, user_id@, i as int);
                }
                Ok(self.secrets[i].clone())
            },
            None => Err(DatabaseError::NotFound),
        }
    }

    /// The secret of the user with the address `email`.
    pub fn get_secret_by_email(&self, email: &str) -> (r: Result<Secret, DatabaseError>)
        requires
            self.wf(),
        ensures
            match r {
                Ok(secret) => self@.secret_by_email(email@) == Some(secret@),
                Err(e) => e == DatabaseError::NotFound && self@.secret_by_email(email@) is None,
            },
    {
        match self.select_user_by_email(email) {
            Ok(user) => self.get_secret_for_user(user.id.as_str()),
            Err(e) => Err(e),
        }
    }

    /// Adds the verification token `token` for `user_id`, to expire one day
    /// after `now`.
    pub fn issue_verification_token(&mut self, token: String, user_id: &str, now: i64) -> (r:
        Result<VerificationToken, DatabaseError>)
        requires
            old(self).wf(),
        ensures
            final(self).wf(),
            match r {
                Ok(issued) => {
                    &&& issuable(
                        old(self)@.users,
                        old(self)@.verification_tokens,
                        token@,
                        user_id@,
                        now as int,
                    ) is Ok
                    &&& issued@ == one_time_token(token@, user_id@, now as int)
                    &&& final(self)@ == old(self)@.with_verification_token(issued@)
                },
                Err(e) => {
                    &&& issuable(
                        old(self)@.users,
                        old(self)@.verification_tokens,
                        token@,
                        user_id@,
                        now as int,
                    ) == Err::<(), DatabaseError>(e)
                    &&& final(self)@ == old(self)@
                },
            },
    {
        issue_into(&mut self.verification_tokens, &self.users, token, user_id, now)
    }

    /// Adds a fresh verification token for `user_id`, to expire one day from
    /// now.
    ///
    /// `NotFound` is returned exactly where there is no such user. `Conflict`
    /// is returned only where the token drawn is in the table, so never
    /// while the table is empty. The expiry always fits.
    pub fn create_verification_token(&mut self, user_id: &str) -> (r: Result<
        VerificationToken,
        DatabaseError,
    >)
        requires
            old(self).wf(),
        ensures
            final(self).wf(),
            match r {
                Ok(issued) => {
                    &&& has_user(old(self)@.users, user_id@)
                    &&& !has_token(old(self)@.verification_tokens, issued@.token)
                    &&& issued@.user_id == user_id@
                    &&& final(self)@ == old(self)@.with_verification_token(issued@)
                },
                Err(e) => {
                    &&& final(self)@ == old(self)@
                    &&& e == DatabaseError::NotFound <==> !has_user(old(self)@.users, user_id@)
                    &&& e == DatabaseError::NotFound || e == DatabaseError::Conflict
                },
            },
            has_user(old(self)@.users, user_id@) && old(self)@.verification_tokens.len() == 0
                ==> r is Ok,
            r matches Ok(issued) ==> is_clock_reading(
                issued@.expires_at - one_time_token_lifetime(),
            ),
    {
        let token = fresh_id();
        let now = unix_now();
        self.issue_verification_token(token, user_id, now)
    }

    /// Redeems the verification token `token` as of `now`: takes it out of
    /// the table and returns its user.
    ///
    /// A token can be redeemed once. The user's record is not changed.
    pub fn redeem_verification_token_at(&mut self, token: &str, now: i64) -> (r: Result<
        User,
        DatabaseError,
    >)
        requires
            old(self).wf(),
        ensures
            final(self).wf(),
            match r {
                Ok(user) => {
                    &&& redeemable(old(self)@.verification_tokens, token@, now as int) is Ok
                    &&& old(self)@.user_by_id(
                        old(self)@.verification_tokens[token_index(
                            old(self)@.verification_tokens,
                            token@,
                        )].user_id,
                    ) == Some(user@)
                    &&& final(self)@ == old(self)@.without_verification_token(token@)
                    &&& !has_token(final(self)@.verification_tokens, token@)
                },
                Err(e) => {
                    &&& redeemable(old(self)@.verification_tokens, token@, now as int) == Err::<
                        (),
                        DatabaseError,
                    >(e)
                    &&& final(self)@ == old(self)@
                },
            },
    {
        match redeem_from(&mut self.verification_tokens, &self.users, token, now) {
            Ok(redeemed) => {
                match find_user(&self.users, redeemed.user_id.as_str()) {
                    Some(i) => {
                        proof {
                            lemma_user_index(self@.users, redeemed@.user_id, i as int);
                        }
                        Ok(self.users[i].clone())
                    },
                    // Not reached: every token belongs to a user.
                    None => Err(DatabaseError::Internal),
                }
            },
            Err(e) => Err(e),
        }
    }

    /// Redeems the verification token `token` as of the present time.
    pub fn redeem_verification_token(&mut self, token: &str) -> (r: Result<User, DatabaseError>)
        requires
            old(self).wf(),
        ensures
            final(self).wf(),
            match r {
                Ok(user) => {
                    &&& has_token(old(self)@.verification_tokens, token@)
                    &&& old(self)@.user_by_id(
                        old(self)@.verification_tokens[token_index(
                            old(self)@.verification_tokens,
                            token@,
                        )].user_id,
                    ) == Some(user@)
                    &&& final(self)@ == old(self)@.without_verification_token(token@)
                    &&& !has_token(final(self)@.verification_tokens, token@)
                },
                Err(e) => {
                    &&& final(self)@ == old(self)@
                    &&& e == DatabaseError::NotFound <==> !has_token(
                        old(self)@.verification_tokens,
                        token@,
                    )
                    &&& e == DatabaseError::NotFound || e == DatabaseError::Expired
                },
            },
            exists|now: int|
                is_clock_reading(now) && user_outcome(r) == #[trigger] redeemable(
                    old(self)@.verification_tokens,
                    token@,
                    now,
                ),
    {
        let now = unix_now();
        self.redeem_verification_token_at(token, now)
    }

    /// Adds the password-reset token `token` for `user_id`, to expire one day
    /// after `now`.
    pub fn issue_password_reset_token(&mut self, token: String, user_id: &str, now: i64) -> (r:
        Result<VerificationToken, DatabaseError>)
        requires
            old(self).wf(),
        ensures
            final(self).wf(),
            match r {
                Ok(issued) => {
                    &&& issuable(
                        old(self)@.users,
                        old(self)@.password_resets,
                        token@,
                        user_id@,
                        now as int,
                    ) is Ok
                    &&& issued@ == one_time_token(token@, user_id@, now as int)
                    &&& final(self)@ == old(self)@.with_password_reset(issued@)
                },
                Err(e) => {
                    &&& issuable(
                        old(self)@.users,
                        old(self)@.password_resets,
                        token@,
                        user_id@,
                        now as int,
                    ) == Err::<(), DatabaseError>(e)
                    &&& final(self)@ == old(self)@
                },
            },
    {
        issue_into(&mut self.password_resets, &self.users, token, user_id, now)
    }

    /// Adds a fresh password-reset token for `user_id`, to expire one day
    /// from now.
    ///
    /// `NotFound` is returned exactly where there is no such user. `Conflict`
    /// is returned only where the token drawn is in the table, so never
    /// while the table is empty. The expiry always fits.
    pub fn create_password_reset_token(&mut self, user_id: &str) -> (r: Result<
        VerificationToken,
        DatabaseError,
    >)
        requires
            old(self).wf(),
        ensures
            final(self).wf(),
            match r {
                Ok(issued) => {
                    &&& has_user(old(self)@.users, user_id@)
                    &&& !has_token(old(self)@.password_resets, issued@.token)
                    &&& issued@.user_id == user_id@
                    &&& final(self)@ == old(self)@.with_password_reset(issued@)
                },
                Err(e) => {
                    &&& final(self)@ == old(self)@
                    &&& e == DatabaseError::NotFound <==> !has_user(old(self)@.users, user_id@)
                    &&& e == DatabaseError::NotFound || e == DatabaseError::Conflict
                },
            },
            has_user(old(self)@.users, user_id@) && old(self)@.password_resets.len() == 0
                ==> r is Ok,
            r matches Ok(issued) ==> is_clock_reading(
                issued@.expires_at - one_time_token_lifetime(),
            ),
    {
        let token = fresh_id();
        let now = unix_now();
        self.issue_password_reset_token(token, user_id, now)
    }

    /// Redeems the password-reset token `token` as of `now`: takes it out of
    /// the table and returns its user.
    pub fn redeem_password_reset_token_at(&mut self, token: &str, now: i64) -> (r: Result<
        User,
        DatabaseError,
    >)
        requires
            old(self).wf(),
        ensures
            final(self).wf(),
            match r {
                Ok(user) => {
                    &&& redeemable(old(self)@.password_resets, token@, now as int) is Ok
                    &&& old(self)@.user_by_id(
                        old(self)@.password_resets[token_index(
                            old(self)@.password_resets,
                            token@,
                        )].user_id,
                    ) == Some(user@)
                    &&& final(self)@ == old(self)@.without_password_reset(token@)
                    &&& !has_token(final(self)@.password_resets, token@)
                },
                Err(e) => {
                    &&& redeemable(old(self)@.password_resets, token@, now as int) == Err::<
                        (),
                        DatabaseError,
                    >(e)
                    &&& final(self)@ == old(self)@
                },
            },
    {
        match redeem_from(&mut self.password_resets, &self.users, token, now) {
            Ok(redeemed) => {
                match find_user(&self.users, redeemed.user_id.as_str()) {
                    Some(i) => {
                        proof {
                            lemma_user_index(self@.users, redeemed@.user_id, i as int);
                        }
                        Ok(self.users[i].clone())
                    },
                    // Not reached: every token belongs to a user.
                    None => Err(DatabaseError::Internal),
                }
            },
            Err(e) => Err(e),
        }
    }

    /// Redeems the password-reset token `token` as of the present time.
    pub fn redeem_password_reset_token(&mut self, token: &str) -> (r: Result<User, DatabaseError>)
        requires
            old(self).wf(),
        ensures
            final(self).wf(),
            match r {
                Ok(user) => {
                    &&& has_token(old(self)@.password_resets, token@)
                    &&& old(self)@.user_by_id(
                        old(self)@.password_resets[token_index(
                            old(self)@.password_resets,
                            token@,
                        )].user_id,
                    ) == Some(user@)
                    &&& final(self)@ == old(self)@.without_password_reset(token@)
                    &&& !has_token(final(self)@.password_resets, token@)
                },
                Err(e) => {
                    &&& final(self)@ == old(self)@
                    &&& e == DatabaseError::NotFound <==> !has_token(
                        old(self)@.password_resets,
                        token@,
                    )
                    &&& e == DatabaseError::NotFound || e == DatabaseError::Expired
                },
            },
            exists|now: int|
                is_clock_reading(now) && user_outcome(r) == #[trigger] redeemable(
                    old(self)@.password_resets,
                    token@,
                    now,
                ),
    {
        let now = unix_now();
        self.redeem_password_reset_token_at(token, now)
    }

    /// Opens a session for `user_id` under `refresh_token`. A session that
    /// the user had is closed by this.
    pub fn create_session(&mut self, user_id: &str, refresh_token: &str, expires_at: i64) -> (r:
        Result<Session, DatabaseError>)
        requires
            old(self).wf(),
        ensures
            final(self).wf(),
            match r {
                Ok(session) => {
                    &&& old(self)@.session_insertable(user_id@, refresh_token@) is Ok
                    &&& session@ == (SessionView {
                        user_id: user_id@,
                        refresh_token: refresh_token@,
                        expires_at: expires_at as int,
                    })
                    &&& final(self)@ == old(self)@.with_session(session@)
                    &&& final(self)@.session_by_token(refresh_token@) == Some(session@)
                },
                Err(e) => {
                    &&& old(self)@.session_insertable(user_id@, refresh_token@) == Err::<
                        (),
                        DatabaseError,
                    >(e)
                    &&& final(self)@ == old(self)@
                },
            },
    {
        if find_user(&self.users, user_id).is_none() {
            return Err(DatabaseError::NotFound);
        }
        match find_session(&self.sessions, refresh_token) {
            Some(i) => {
                proof {
                    lemma_session_index(self@.users, self@.sessions, refresh_token@, i as int);
                }
                if !same_text(self.sessions[i].user_id.as_str(), user_id) {
                    return Err(DatabaseError::Conflict);
                }
            },
            None => {},
        }
        assert(has_session(self@.sessions, refresh_token@) ==> self@.sessions[session_index(
            self@.sessions,
            refresh_token@,
        )].user_id == user_id@);
        let session = Session {
            user_id: user_id.to_owned(),
            refresh_token: refresh_token.to_owned(),
            expires_at,
        };
        let stored = session.clone();
        match find_session_of(&self.sessions, user_id) {
            Some(i) => {
                proof {
                    lemma_session_of_index(self@.users, self@.sessions, user_id@, i as int);
                    lemma_remove_session(self@.users, self@.sessions, i as int);
                    if self@.sessions[i as int].refresh_token != refresh_token@ && has_session(
                        self@.sessions,
                        refresh_token@,
                    ) {
                        let k = session_index(self@.sessions, refresh_token@);
                        assert(session_at(self@.sessions, refresh_token@, k));
                        assert(session_of_at(self@.sessions, user_id@, k));
                        lemma_session_of_index(self@.users, self@.sessions, user_id@, k);
                    }
                }
                self.sessions.remove(i);
                assert(self@.sessions =~= old(self)@.sessions.remove(i as int));
            },
            None => {
                proof {
                    if has_session(self@.sessions, refresh_token@) {
                        let k = session_index(self@.sessions, refresh_token@);
                        assert(session_at(self@.sessions, refresh_token@, k));
                        assert(session_of_at(self@.sessions, user_id@, k));
                    }
                }
            },
        }
        proof {
            lemma_push_session(self@.users, self@.sessions, session@);
            lemma_session_index(
                self@.users,
                self@.sessions.push(session@),
                refresh_token@,
                self@.sessions.len() as int,
            );
        }
        let ghost before = self@.sessions;
        self.sessions.push(stored);
        assert(self@.sessions =~= before.push(session@));
        Ok(session)
    }

    /// The session that holds `refresh_token`.
    pub fn find_session_by_refresh_token(&self, refresh_token: &str) -> (r: Result<
        Session,
        DatabaseError,
    >)
        requires
            self.wf(),
        ensures
            match r {
                Ok(session) => self@.session_by_token(refresh_token@) == Some(session@),
                Err(e) => e == DatabaseError::NotFound && self@.session_by_token(refresh_token@)
                    is None,
            },
    {
        match find_session(&self.sessions, refresh_token) {
            Some(i) => {
                proof {
                    lemma_session_index(self@.users, self@.sessions, refresh_token@, i as int);
                }
                Ok(self.sessions[i].clone())
            },
            None => Err(DatabaseError::NotFound),
        }
    }

    /// Closes the session that holds `refresh_token`, if there is one, and
    /// says whether there was.
    pub fn revoke_session(&mut self, refresh_token: &str) -> (closed: bool)
        requires
            old(self).wf(),
        ensures
            final(self).wf(),
            closed == has_session(old(self)@.sessions, refresh_token@),
            final(self)@ == old(self)@.without_session(refresh_token@),
            !has_session(final(self)@.sessions, refresh_token@),
    {
        match find_session(&self.sessions, refresh_token) {
            Some(i) => {
                proof {
                    lemma_session_index(self@.users, self@.sessions, refresh_token@, i as int);
                    lemma_remove_session(self@.users, self@.sessions, i as int);
                }
                self.sessions.remove(i);
                assert(self@.sessions =~= old(self)@.sessions.remove(i as int));
                true
            },
            None => false,
        }
    }

    /// Marks the user `id` as active.
    pub fn activate_user(&mut self, id: &str) -> (r: Result<User, DatabaseError>)
        requires
            old(self).wf(),
        ensures
            final(self).wf(),
            match r {
                Ok(user) => {
                    &&& old(self)@.user_by_id(id@) matches Some(before)
                    &&& user@ == (UserView { status: UserStatus::Active, ..before })
                    &&& final(self)@ == old(self)@.with_active(id@)
                    &&& final(self)@.user_by_id(id@) == Some(user@)
                },
                Err(e) => {
                    &&& e == DatabaseError::NotFound
                    &&& old(self)@.user_by_id(id@) is None
                    &&& final(self)@ == old(self)@
                },
            },
    {
        let i = match find_user(&self.users, id) {
            Some(i) => i,
            None => {
                return Err(DatabaseError::NotFound);
            },
        };
        let mut user = self.users[i].clone();
        user.status = UserStatus::Active;
        let stored = user.clone();
        proof {
            lemma_user_index(self@.users, id@, i as int);
            lemma_update_user(self@, i as int, user@);
            assert(user_at(self@.users.update(i as int, user@), id@, i as int));
            lemma_user_index(self@.users.update(i as int, user@), id@, i as int);
        }
        self.users.set(i, stored);
        assert(self@.users =~= old(self)@.users.update(i as int, user@));
        Ok(user)
    }

    /// Gives the user `id` the password digest `password_hash`.
    pub fn set_password_hash(&mut self, id: &str, password_hash: &str) -> (r: Result<
        User,
        DatabaseError,
    >)
        requires
            old(self).wf(),
        ensures
            final(self).wf(),
            match r {
                Ok(user) => {
                    &&& old(self)@.user_by_id(id@) matches Some(before)
                    &&& user@ == (UserView { password_hash: password_hash@, ..before })
                    &&& final(self)@ == old(self)@.with_password_hash(id@, password_hash@)
                    &&& final(self)@.user_by_id(id@) == Some(user@)
                },
                Err(e) => {
                    &&& e == DatabaseError::NotFound
                    &&& old(self)@.user_by_id(id@) is None
                    &&& final(self)@ == old(self)@
                },
            },
    {
        let i = match find_user(&self.users, id) {
            Some(i) => i,
            None => {
                return Err(DatabaseError::NotFound);
            },
        };
        let mut user = self.users[i].clone();
        user.password_hash = password_hash.to_owned();
        let stored = user.clone();
        proof {
            lemma_user_index(self@.users, id@, i as int);
            lemma_update_user(self@, i as int, user@);
            assert(user_at(self@.users.update(i as int, user@), id@, i as int));
            lemma_user_index(self@.users.update(i as int, user@), id@, i as int);
        }
        self.users.set(i, stored);
        assert(self@.users =~= old(self)@.users.update(i as int, user@));
        Ok(user)
    }

    /// Notes that the user `id` has logged in at `now`.
    pub fn record_login(&mut self, id: &str, now: i64) -> (r: Result<User, DatabaseError>)
        requires
            old(self).wf(),
        ensures
            final(self).wf(),
            match r {
                Ok(user) => {
                    &&& old(self)@.user_by_id(id@) matches Some(before)
                    &&& user@ == (UserView { last_login: Some(now as int), ..before })
                    &&& final(self)@ == old(self)@.with_login(id@, now as int)
                    &&& final(self)@.user_by_id(id@) == Some(user@)
                },
                Err(e) => {
                    &&& e == DatabaseError::NotFound
                    &&& old(self)@.user_by_id(id@) is None
                    &&& final(self)@ == old(self)@
                },
            },
    {
        let i = match find_user(&self.users, id) {
            Some(i) => i,
            None => {
                return Err(DatabaseError::NotFound);
            },
        };
        let mut user = self.users[i].clone();
        user.last_login = Some(now);
        let stored = user.clone();
        proof {
            lemma_user_index(self@.users, id@, i as int);
            lemma_update_user(self@, i as int, user@);
            assert(user_at(self@.users.update(i as int, user@), id@, i as int));
            lemma_user_index(self@.users.update(i as int, user@), id@, i as int);
        }
        self.users.set(i, stored);
        assert(self@.users =~= old(self)@.users.update(i as int, user@));
        Ok(user)
    }
}

} // verus!
