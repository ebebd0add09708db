//! Registration, login, token verification, redemption and refresh.
//!
//! The flows hold no state of their own: each reads and writes the store it
//! is handed. A flow that fails leaves the store as it was.

use vstd::prelude::*;
use vstd::utf8::encode_utf8;
use crate::clock::{is_clock_reading, unix_now};
use crate::db::database::{token_lifetime, Database};
use crate::db::error::DatabaseError;
use crate::db::lemmas::{
    lemma_push_keeps_users, lemma_replaced_session_is_closed, lemma_update_user,
    lemma_update_user_lookup, lemma_user_index,
};
use crate::db::model::{
    email_at, email_index, has_email, has_session, has_token, has_user, issuable,
    one_time_token, one_time_token_lifetime, redeemable, session_at, session_index, token_index,
    user_at, DatabaseView,
};
use crate::ident::fresh_id;
use crate::jwt::claims::{claims_for, lemma_labels_differ, TokenKind};
use crate::jwt::codec::jwt_decoding;
use crate::jwt::jwt::{create_token_at, issued, verdict, verify_token_at};
use crate::models::auth::{
    login_refused, password_is_acceptable, password_ok, LoginInput, RegisterInput, SecretView,
    SessionView, ValidationErrors, VerificationToken, VerificationTokenView,
};
use crate::models::users::{new_user, User, UserStatus, UserView};
use crate::password::{bcrypt_hash, bcrypt_verdict, bcrypt_verify, password_matches};

verus! {

/// How a flow can fail, as the caller is told.
#[derive(Debug, Clone, Copy, PartialEq, Eq, Structural)]
pub enum AuthError {
    /// The request body breaks a format rule.
    ValidationError,
    /// A value that must be unique is already taken.
    Conflict,
    /// Bad credentials, or a token that is not accepted. The caller is not
    /// told which.
    Unauthorized,
    /// What was to be redeemed is missing or has expired.
    NotFound,
    /// The store could not be reached in time; the caller may try again.
    Unavailable,
    /// Anything else.
    Internal,
}

impl AuthError {
    /// The HTTP status that answers this error.
    pub open spec fn status(self) -> int {
        match self {
            AuthError::ValidationError => 400,
            AuthError::Conflict => 409,
            AuthError::Unauthorized => 401,
            AuthError::NotFound => 404,
            AuthError::Unavailable => 503,
            AuthError::Internal => 500,
        }
    }

    /// The HTTP status that answers this error.
    pub fn status_code(&self) -> (code: u16)
        ensures
            code == self.status(),
    {
        match self {
            AuthError::ValidationError => 400,
            AuthError::Conflict => 409,
            AuthError::Unauthorized => 401,
            AuthError::NotFound => 404,
            AuthError::Unavailable => 503,
            AuthError::Internal => 500,
        }
    }

    /// The message that belongs to this error. It gives no detail.
    pub open spec fn message_text(self) -> Seq<char> {
        match self {
            AuthError::ValidationError => "Invalid request"@,
            AuthError::Conflict => "Email already registered"@,
            AuthError::Unauthorized => "Invalid email or password"@,
            AuthError::NotFound => "Not found"@,
            AuthError::Unavailable => "Service unavailable"@,
            AuthError::Internal => "Internal error"@,
        }
    }

    /// The message that belongs to this error. It gives no detail.
    pub fn message(&self) -> (s: &'static str)
        ensures
            s@ == self.message_text(),
    {
        match self {
            AuthError::ValidationError => "Invalid request",
            AuthError::Conflict => "Email already registered",
            AuthError::Unauthorized => "Invalid email or password",
            AuthError::NotFound => "Not found",
            AuthError::Unavailable => "Service unavailable",
            AuthError::Internal => "Internal error",
        }
    }
}

/// How a failure of the store is passed on. An expired record is reported
/// as a missing one.
pub open spec fn store_error(e: DatabaseError) -> AuthError {
    match e {
        DatabaseError::Conflict => AuthError::Conflict,
        DatabaseError::NotFound => AuthError::NotFound,
        DatabaseError::Expired => AuthError::NotFound,
        DatabaseError::Unavailable => AuthError::Unavailable,
        DatabaseError::Internal => AuthError::Internal,
    }
}

/// How a failure of the store is passed on.
pub fn from_store_error(e: DatabaseError) -> (r: AuthError)
    ensures
        r == store_error(e),
{
    match e {
        DatabaseError::Conflict => AuthError::Conflict,
        DatabaseError::NotFound => AuthError::NotFound,
        DatabaseError::Expired => AuthError::NotFound,
        DatabaseError::Unavailable => AuthError::Unavailable,
        DatabaseError::Internal => AuthError::Internal,
    }
}

/// What of a user is shown to the outside: never the digest, never the
/// secret.
#[derive(Debug)]
pub struct PublicIdentity {
    pub id: String,
    pub username: String,
    pub email: String,
}

/// The mathematical content of a [`PublicIdentity`].
pub struct PublicIdentityView {
    pub id: Seq<char>,
    pub username: Seq<char>,
    pub email: Seq<char>,
}

impl View for PublicIdentity {
    type V = PublicIdentityView;

    open spec fn view(&self) -> PublicIdentityView {
        PublicIdentityView { id: self.id@, username: self.username@, email: self.email@ }
    }
}

/// The public identity of a user.
pub open spec fn identity_of(user: UserView) -> PublicIdentityView {
    PublicIdentityView { id: user.id, username: user.username, email: user.email }
}

/// The public identity of a user.
pub fn public_identity(user: &User) -> (identity: PublicIdentity)
    ensures
        identity@ == identity_of(user@),
{
    PublicIdentity {
        id: user.id.clone(),
        username: user.username.clone(),
        email: user.email.clone(),
    }
}

/// The outcome of a registration.
#[derive(Debug)]
pub struct Registered {
    /// What the caller is told.
    pub identity: PublicIdentity,
    /// What is sent to the registered address, and to nobody else.
    pub verification: VerificationToken,
}

/// The outcome of a login or a refresh.
#[derive(Debug)]
pub struct LoginTokens {
    pub access_token: String,
    pub refresh_token: String,
    /// Seconds until the access token expires.
    pub expires_in: i64,
}

/// The key that a secret signs with: its key material as bytes.
pub open spec fn key_bytes(key_material: Seq<char>) -> Seq<u8> {
    encode_utf8(key_material)
}

/// Whether a registration with these identifiers can be made at `now`:
/// `Conflict` where the address is taken, `Internal` where an identifier or
/// the verification token is in use or the token's expiry does not fit.
pub open spec fn registrable(
    db: DatabaseView,
    user_id: Seq<char>,
    secret_id: Seq<char>,
    email: Seq<char>,
    token: Seq<char>,
    now: int,
) -> Result<(), AuthError> {
    match db.pair_insertable(user_id, secret_id, email) {
        Err(e) => Err(store_error(e)),
        Ok(_) => if has_token(db.verification_tokens, token) || now + one_time_token_lifetime()
            > i64::MAX {
            Err(AuthError::Internal)
        } else {
            Ok(())
        },
    }
}

/// What a registration with these identifiers comes to at `now`, when
/// `refused` are the fields of the request that break a format rule:
/// `ValidationError` where there is such a field, before anything else is
/// looked at; otherwise what [`registrable`] says.
pub open spec fn registration(
    db: DatabaseView,
    refused: ValidationErrors,
    user_id: Seq<char>,
    secret_id: Seq<char>,
    email: Seq<char>,
    token: Seq<char>,
    now: int,
) -> Result<(), AuthError> {
    if refused.any() {
        Err(AuthError::ValidationError)
    } else {
        registrable(db, user_id, secret_id, email, token, now)
    }
}

/// The store after a registration: one more user, its secret, and its
/// verification token.
pub open spec fn after_register(
    db: DatabaseView,
    user: UserView,
    secret: SecretView,
    token: VerificationTokenView,
) -> DatabaseView {
    db.with_user(user).with_secret(secret).with_verification_token(token)
}

/// Registers a user from values that were drawn beforehand: the digest of
/// the password, the identifiers, the key material, the verification token
/// and the time.
///
/// A request that breaks a format rule is refused before anything else is
/// looked at. The user, its secret and its verification token are added
/// together or not at all.
pub fn register_with(
    db: &mut Database,
    input: &RegisterInput,
    password_hash: &str,
    user_id: String,
    secret_id: String,
    key_material: String,
    verification_token: String,
    now: i64,
) -> (r: Result<Registered, AuthError>)
    requires
        old(db).wf(),
    ensures
        final(db).wf(),
        match r {
            Ok(registered) => {
                let user = new_user(
                    user_id@,
                    input.username@,
                    input.email@,
                    password_hash@,
                    now as int,
                );
                let secret = SecretView {
                    id: secret_id@,
                    user_id: user_id@,
                    key_material: key_material@,
                };
                &&& registration(
                    old(db)@,
                    input.refused(),
                    user_id@,
                    secret_id@,
                    input.email@,
                    verification_token@,
                    now as int,
                ) is Ok
                &&& registered.identity@ == identity_of(user)
                &&& registered.verification@ == one_time_token(
                    verification_token@,
                    user_id@,
                    now as int,
                )
                &&& final(db)@ == after_register(old(db)@, user, secret, registered.verification@)
                &&& final(db)@.user_by_email(input.email@) == Some(user)
                &&& final(db)@.secret_of(user_id@) == Some(secret)
            },
            Err(e) => {
                &&& registration(
                    old(db)@,
                    input.refused(),
                    user_id@,
                    secret_id@,
                    input.email@,
                    verification_token@,
                    now as int,
                ) == Err::<(), AuthError>(e)
                &&& final(db)@ == old(db)@
            },
        },
{
    if input.validate().is_err() {
        return Err(AuthError::ValidationError);
    }
    if db.email_taken(input.email.as_str()) {
        return Err(AuthError::Conflict);
    }
    if db.has_verification_token(verification_token.as_str()) || now > i64::MAX
        - token_lifetime() {
        return Err(AuthError::Internal);
    }
    let (user, _secret) = match db.insert_user_with_secret(
        user_id,
        secret_id,
        key_material,
        input.username.as_str(),
        input.email.as_str(),
        password_hash,
        now,
    ) {
        Ok(pair) => pair,
        Err(e) => {
            return Err(from_store_error(e));
        },
    };
    proof {
        lemma_push_keeps_users(old(db)@.users, user@);
    }
    match db.issue_verification_token(verification_token, user.id.as_str(), now) {
        Ok(verification) => Ok(Registered { identity: public_identity(&user), verification }),
        // Not reached: the user exists now, and the token and the time were
        // tested above.
        Err(_) => Err(AuthError::Internal),
    }
}

/// Registers a user: holds the request to the format rules, hashes the
/// password, draws the user's identifier, its secret and a verification
/// token, and adds all three to the store.
///
/// `ValidationError` is returned exactly where the request breaks a format
/// rule, and then nothing is hashed or stored. Otherwise `Conflict` is
/// returned exactly where the address is taken. `Internal` is returned only
/// where hashing fails or a value drawn is already in use.
pub fn register(db: &mut Database, input: &RegisterInput) -> (r: Result<Registered, AuthError>)
    requires
        old(db).wf(),
    ensures
        final(db).wf(),
        match r {
            Ok(registered) => {
                &&& !input.refused().any()
                &&& !has_email(old(db)@.users, input.email@)
                &&& final(db)@.user_by_email(input.email@) matches Some(user)
                &&& final(db)@.secret_of(user.id) matches Some(secret)
                &&& user == new_user(
                    user.id,
                    input.username@,
                    input.email@,
                    user.password_hash,
                    user.created_at,
                )
                &&& is_clock_reading(user.created_at)
                &&& password_matches(input.password@, user.password_hash)
                &&& registered.identity@ == identity_of(user)
                &&& registered.verification@ == one_time_token(
                    registered.verification@.token,
                    user.id,
                    user.created_at,
                )
                &&& final(db)@ == after_register(old(db)@, user, secret, registered.verification@)
            },
            Err(e) => {
                &&& final(db)@ == old(db)@
                &&& e == AuthError::ValidationError <==> input.refused().any()
                &&& e == AuthError::Conflict <==> !input.refused().any() && has_email(
                    old(db)@.users,
                    input.email@,
                )
                &&& e == AuthError::ValidationError || e == AuthError::Conflict || e
                    == AuthError::Internal
            },
        },
{
    if input.validate().is_err() {
        return Err(AuthError::ValidationError);
    }
    if db.email_taken(input.email.as_str()) {
        return Err(AuthError::Conflict);
    }
    let password_hash = match bcrypt_hash(input.password.as_str()) {
        Ok(hash) => hash,
        Err(_) => {
            return Err(AuthError::Internal);
        },
    };
    let user_id = fresh_id();
    let secret_id = fresh_id();
    let key_material = fresh_id();
    let verification_token = fresh_id();
    let now = unix_now();
    register_with(
        db,
        input,
        password_hash.as_str(),
        user_id,
        secret_id,
        key_material,
        verification_token,
        now,
    )
}

/// What a login at `now` comes to: the access token and the refresh token,
/// or the error.
///
/// A request that breaks a format rule gives `ValidationError`, before
/// anything else is looked at. An unknown address and a wrong password both
/// give `Unauthorized`. A digest that cannot be read, a user without a
/// secret, an expiry that does not fit and a refresh token that is in force
/// for another user give `Internal`.
pub open spec fn login_outcome(
    db: DatabaseView,
    email: Seq<char>,
    password: Seq<char>,
    now: int,
) -> Result<(Seq<char>, Seq<char>), AuthError> {
    if login_refused(email, password).any() {
        Err(AuthError::ValidationError)
    } else {
        match db.user_by_email(email) {
            None => Err(AuthError::Unauthorized),
            Some(user) => match bcrypt_verdict(password, user.password_hash) {
                None => Err(AuthError::Internal),
                Some(same) => if !same {
                    Err(AuthError::Unauthorized)
                } else {
                    match db.secret_of(user.id) {
                        None => Err(AuthError::Internal),
                        Some(secret) => issue_pair(
                            db,
                            user.id,
                            key_bytes(secret.key_material),
                            now,
                        ),
                    }
                },
            },
        }
    }
}

/// Whether a login with these credentials gets as far as the issue of the
/// tokens: the request keeps the format rules, the address is that of a
/// user, the password matches the user's digest, and the user has a secret.
pub open spec fn credentials_hold(db: DatabaseView, email: Seq<char>, password: Seq<char>) -> bool {
    &&& !login_refused(email, password).any()
    &&& db.user_by_email(email) matches Some(user)
    &&& password_matches(password, user.password_hash)
    &&& db.secret_of(user.id) is Some
}

/// The access token and the refresh token issued to `user_id` at `now`, or
/// `Internal` where an expiry does not fit or the refresh token is in force
/// for another user.
pub open spec fn issue_pair(db: DatabaseView, user_id: Seq<char>, key: Seq<u8>, now: int) -> Result<
    (Seq<char>, Seq<char>),
    AuthError,
> {
    match (
        issued(user_id, TokenKind::Access, key, now),
        issued(user_id, TokenKind::Refresh, key, now),
    ) {
        (Some(access), Some(refresh)) => if db.session_insertable(user_id, refresh) is Ok {
            Ok((access, refresh))
        } else {
            Err(AuthError::Internal)
        },
        _ => Err(AuthError::Internal),
    }
}

/// The session opened at `now` for `user_id` under `refresh_token`.
pub open spec fn session_at_login(
    user_id: Seq<char>,
    refresh_token: Seq<char>,
    now: int,
) -> SessionView {
    SessionView { user_id, refresh_token, expires_at: now + TokenKind::Refresh.lifetime_secs() }
}

/// The store after a login at `now` of the user with the address `email`:
/// the user's session is the new one, and the login is noted.
pub open spec fn after_login(
    db: DatabaseView,
    email: Seq<char>,
    refresh_token: Seq<char>,
    now: int,
) -> DatabaseView {
    let user_id = db.user_by_email(email).unwrap().id;
    db.with_session(session_at_login(user_id, refresh_token, now)).with_login(user_id, now)
}

/// Whether `token` is accepted at `now` as an access token of the user with
/// the address `email`: the user has a secret, and under it the token
/// decodes, has not expired and is an access token.
pub open spec fn accepts(db: DatabaseView, token: Seq<char>, email: Seq<char>, now: int) -> bool {
    match db.secret_by_email(email) {
        Some(secret) => verdict(
            jwt_decoding(token, key_bytes(secret.key_material)),
            TokenKind::Access,
            now,
        ) is Ok,
        None => false,
    }
}

/// What the two tokens issued to `user_id` at `now` decode to under `key`:
/// the claims they were issued with.
pub open spec fn pair_decodes(
    access_token: Seq<char>,
    refresh_token: Seq<char>,
    user_id: Seq<char>,
    key: Seq<u8>,
    now: int,
) -> bool {
    &&& jwt_decoding(access_token, key) == Some(claims_for(user_id, TokenKind::Access, now))
    &&& jwt_decoding(refresh_token, key) == Some(claims_for(user_id, TokenKind::Refresh, now))
}

/// What holds in the store `db` of the two tokens that a login at `now`
/// gave to the user `user_id` with the address `email` and the secret
/// `secret`:
///
/// - both decode under the secret to the claims they were issued with, so
///   their subject is the user's identifier;
/// - the access token is accepted for the address until it expires, and no
///   longer;
/// - the refresh token is never accepted as an access token.
pub open spec fn tokens_hold(
    db: DatabaseView,
    email: Seq<char>,
    user_id: Seq<char>,
    secret: SecretView,
    access_token: Seq<char>,
    refresh_token: Seq<char>,
    now: int,
) -> bool {
    &&& db.secret_by_email(email) == Some(secret)
    &&& pair_decodes(access_token, refresh_token, user_id, key_bytes(secret.key_material), now)
    &&& forall|t: int| #[trigger]
        accepts(db, access_token, email, t) <==> t <= now + TokenKind::Access.lifetime_secs()
    &&& forall|t: int| !#[trigger] accepts(db, refresh_token, email, t)
}

/// Issues both tokens to `user` at `now` and opens the session.
fn open_session(db: &mut Database, user_id: &str, key: &[u8], now: i64) -> (r: Result<
    LoginTokens,
    AuthError,
>)
    requires
        old(db).wf(),
    ensures
        final(db).wf(),
        match r {
            Ok(tokens) => {
                &&& issue_pair(old(db)@, user_id@, key@, now as int) == Ok::<
                    (Seq<char>, Seq<char>),
                    AuthError,
                >((tokens.access_token@, tokens.refresh_token@))
                &&& tokens.expires_in == TokenKind::Access.lifetime_secs()
                &&& final(db)@ == old(db)@.with_session(
                    session_at_login(user_id@, tokens.refresh_token@, now as int),
                )
                &&& final(db)@.session_by_token(tokens.refresh_token@) == Some(
                    session_at_login(user_id@, tokens.refresh_token@, now as int),
                )
                &&& now >= 0 ==> pair_decodes(
                    tokens.access_token@,
                    tokens.refresh_token@,
                    user_id@,
                    key@,
                    now as int,
                )
            },
            Err(e) => {
                &&& issue_pair(old(db)@, user_id@, key@, now as int) == Err::<
                    (Seq<char>, Seq<char>),
                    AuthError,
                >(e)
                &&& final(db)@ == old(db)@
            },
        },
        has_user(old(db)@.users, user_id@) && now + TokenKind::Refresh.lifetime_secs() <= i64::MAX
            && (forall|i: int|
            0 <= i < old(db)@.sessions.len() ==> (#[trigger] old(db)@.sessions[i]).user_id
                == user_id@) ==> r is Ok,
{
    let access_token = match create_token_at(user_id, TokenKind::Access, key, now) {
        Ok(token) => token,
        Err(_) => {
            return Err(AuthError::Internal);
        },
    };
    let refresh_token = match create_token_at(user_id, TokenKind::Refresh, key, now) {
        Ok(token) => token,
        Err(_) => {
            return Err(AuthError::Internal);
        },
    };
    let expires_at = now + TokenKind::Refresh.lifetime();
    match db.create_session(user_id, refresh_token.as_str(), expires_at) {
        Ok(_) => Ok(
            LoginTokens { access_token, refresh_token, expires_in: TokenKind::Access.lifetime() },
        ),
        Err(_) => Err(AuthError::Internal),
    }
}

/// Logs a user in as of `now`.
///
/// The request is held to the format rules first. On success the user's
/// session is the one of the new refresh token and the login is noted; and,
/// where `now` is not before the epoch, the tokens are what
/// [`tokens_hold`] says. Success is owed where the credentials hold, the
/// expiry fits and no other user has a session.
pub fn login_at(db: &mut Database, input: &LoginInput, now: i64) -> (r: Result<
    LoginTokens,
    AuthError,
>)
    requires
        old(db).wf(),
    ensures
        final(db).wf(),
        match r {
            Ok(tokens) => {
                &&& login_outcome(old(db)@, input.email@, input.password@, now as int) == Ok::<
                    (Seq<char>, Seq<char>),
                    AuthError,
                >((tokens.access_token@, tokens.refresh_token@))
                &&& tokens.expires_in == TokenKind::Access.lifetime_secs()
                &&& final(db)@ == after_login(
                    old(db)@,
                    input.email@,
                    tokens.refresh_token@,
                    now as int,
                )
                &&& old(db)@.user_by_email(input.email@) matches Some(user)
                &&& old(db)@.secret_of(user.id) matches Some(secret)
                &&& now >= 0 ==> tokens_hold(
                    final(db)@,
                    input.email@,
                    user.id,
                    secret,
                    tokens.access_token@,
                    tokens.refresh_token@,
                    now as int,
                )
            },
            Err(e) => {
                &&& login_outcome(old(db)@, input.email@, input.password@, now as int) == Err::<
                    (Seq<char>, Seq<char>),
                    AuthError,
                >(e)
                &&& final(db)@ == old(db)@
            },
        },
        credentials_hold(old(db)@, input.email@, input.password@) && now
            + TokenKind::Refresh.lifetime_secs() <= i64::MAX && old(db)@.sessions.len() == 0
            ==> r is Ok,
{
    if input.validate().is_err() {
        return Err(AuthError::ValidationError);
    }
    let user = match db.select_user_by_email(input.email.as_str()) {
        Ok(user) => user,
        Err(_) => {
            return Err(AuthError::Unauthorized);
        },
    };
    match bcrypt_verify(input.password.as_str(), user.password_hash.as_str()) {
        Ok(same) => {
            if !same {
                return Err(AuthError::Unauthorized);
            }
        },
        Err(_) => {
            return Err(AuthError::Internal);
        },
    }
    let secret = match db.get_secret_for_user(user.id.as_str()) {
        Ok(secret) => secret,
        Err(_) => {
            return Err(AuthError::Internal);
        },
    };
    proof {
        let i = email_index(old(db)@.users, input.email@);
        assert(email_at(old(db)@.users, input.email@, i));
        assert(user_at(old(db)@.users, user@.id, i));
    }
    let key = secret.key_material.as_str().as_bytes();
    let tokens = match open_session(db, user.id.as_str(), key, now) {
        Ok(tokens) => tokens,
        Err(e) => {
            return Err(e);
        },
    };
    let ghost opened = db@;
    let noted = db.record_login(user.id.as_str(), now);
    proof {
        let i = email_index(old(db)@.users, input.email@);
        assert(user_at(opened.users, user@.id, i));
        lemma_user_index(opened.users, user@.id, i);
        let noted_user = UserView { last_login: Some(now as int), ..opened.users[i] };
        lemma_update_user(opened, i, noted_user);
        lemma_update_user_lookup(opened, i, noted_user);
        assert(has_email(opened.users, input.email@));
        assert(db@.user_by_email(input.email@) == Some(noted_user));
        assert(db@.secret_by_email(input.email@) == Some(secret@));
        if now >= 0 {
            lemma_labels_differ();
        }
    }
    match noted {
        Ok(_) => Ok(tokens),
        // Not reached: the user was found above.
        Err(_) => Err(AuthError::Internal),
    }
}

/// What holds of a successful login at the reading `now` of the clock:
/// what [`login_outcome`] and [`after_login`] say of it, and what
/// [`tokens_hold`] says of its tokens.
pub open spec fn logged_in(
    before: DatabaseView,
    after: DatabaseView,
    email: Seq<char>,
    password: Seq<char>,
    access_token: Seq<char>,
    refresh_token: Seq<char>,
    now: int,
) -> bool {
    &&& is_clock_reading(now)
    &&& login_outcome(before, email, password, now) == Ok::<(Seq<char>, Seq<char>), AuthError>(
        (access_token, refresh_token),
    )
    &&& after == after_login(before, email, refresh_token, now)
    &&& before.user_by_email(email) matches Some(user)
    &&& before.secret_of(user.id) matches Some(secret)
    &&& tokens_hold(after, email, user.id, secret, access_token, refresh_token, now)
}

/// What holds of a login that failed with `e` at the reading `now` of the
/// clock.
pub open spec fn login_failed(
    before: DatabaseView,
    email: Seq<char>,
    password: Seq<char>,
    e: AuthError,
    now: int,
) -> bool {
    &&& is_clock_reading(now)
    &&& login_outcome(before, email, password, now) == Err::<(Seq<char>, Seq<char>), AuthError>(e)
}

/// Logs a user in as of the present time.
///
/// Whatever the clock reads, the outcome is that of [`login_at`] for that
/// reading. Success is owed where the credentials hold and no other user
/// has a session.
pub fn login(db: &mut Database, input: &LoginInput) -> (r: Result<LoginTokens, AuthError>)
    requires
        old(db).wf(),
    ensures
        final(db).wf(),
        match r {
            Ok(tokens) => {
                &&& tokens.expires_in == TokenKind::Access.lifetime_secs()
                &&& exists|now: int| #[trigger]
                    logged_in(
                        old(db)@,
                        final(db)@,
                        input.email@,
                        input.password@,
                        tokens.access_token@,
                        tokens.refresh_token@,
                        now,
                    )
            },
            Err(e) => {
                &&& final(db)@ == old(db)@
                &&& exists|now: int| #[trigger]
                    login_failed(old(db)@, input.email@, input.password@, e, now)
                &&& e == AuthError::ValidationError <==> input.refused().any()
            },
        },
        credentials_hold(old(db)@, input.email@, input.password@) && old(db)@.sessions.len() == 0
            ==> r is Ok,
{
    let now = unix_now();
    let r = login_at(db, input, now);
    proof {
        match &r {
            Ok(tokens) => {
                assert(logged_in(
                    old(db)@,
                    db@,
                    input.email@,
                    input.password@,
                    tokens.access_token@,
                    tokens.refresh_token@,
                    now as int,
                ));
            },
            Err(e) => {
                assert(login_failed(old(db)@, input.email@, input.password@, *e, now as int));
            },
        }
    }
    r
}

/// Whether `token` is accepted as of `now` as an access token of the user
/// with the address `email`. Every failure gives `false`; the caller does
/// not learn which.
pub fn verify_at(db: &Database, token: &str, email: &str, now: i64) -> (valid: bool)
    requires
        db.wf(),
    ensures
        valid == accepts(db@, token@, email@, now as int),
{
    match db.get_secret_by_email(email) {
        Ok(secret) => {
            let key = secret.key_material.as_str().as_bytes();
            verify_token_at(token, key, TokenKind::Access, now).is_ok()
        },
        Err(_) => false,
    }
}

/// Whether `token` is accepted as of the present time as an access token of
/// the user with the address `email`.
pub fn verify(db: &Database, token: &str, email: &str) -> (valid: bool)
    requires
        db.wf(),
    ensures
        exists|now: int|
            is_clock_reading(now) && valid == #[trigger] accepts(db@, token@, email@, now),
{
    let now = unix_now();
    verify_at(db, token, email, now)
}

/// What redeeming the verification token `token` at `now` comes to: the
/// user it was issued to, or `NotFound` where the token is missing or has
/// expired.
pub open spec fn redeem_outcome(db: DatabaseView, token: Seq<char>, now: int) -> Result<
    UserView,
    AuthError,
> {
    match redeemable(db.verification_tokens, token, now) {
        Err(e) => Err(store_error(e)),
        Ok(_) => Ok(
            db.user_by_id(
                db.verification_tokens[token_index(db.verification_tokens, token)].user_id,
            ).unwrap(),
        ),
    }
}

/// The store after redeeming the verification token `token` at `now`: where
/// that succeeds, the token is gone and its user is active.
pub open spec fn after_redeem(db: DatabaseView, token: Seq<char>, now: int) -> DatabaseView {
    match redeem_outcome(db, token, now) {
        Ok(user) => db.without_verification_token(token).with_active(user.id),
        Err(_) => db,
    }
}

/// Redeems the verification token `token` as of `now`, and marks its user
/// as active.
pub fn redeem_verification_at(db: &mut Database, token: &str, now: i64) -> (r: Result<
    PublicIdentity,
    AuthError,
>)
    requires
        old(db).wf(),
    ensures
        final(db).wf(),
        final(db)@ == after_redeem(old(db)@, token@, now as int),
        match r {
            Ok(identity) => {
                &&& redeem_outcome(old(db)@, token@, now as int) matches Ok(user)
                &&& identity@ == identity_of(user)
                &&& final(db)@.user_by_id(user.id) == Some(
                    UserView { status: UserStatus::Active, ..user },
                )
            },
            Err(e) => redeem_outcome(old(db)@, token@, now as int) == Err::<UserView, AuthError>(e),
        },
{
    let user = match db.redeem_verification_token_at(token, now) {
        Ok(user) => user,
        Err(e) => {
            return Err(from_store_error(e));
        },
    };
    match db.activate_user(user.id.as_str()) {
        Ok(active) => Ok(public_identity(&active)),
        // Not reached: the store returned this user.
        Err(_) => Err(AuthError::Internal),
    }
}

/// Redeems the verification token `token` as of the present time, and marks
/// its user as active.
pub fn redeem_verification(db: &mut Database, token: &str) -> (r: Result<
    PublicIdentity,
    AuthError,
>)
    requires
        old(db).wf(),
    ensures
        final(db).wf(),
        exists|now: int|
            {
                &&& is_clock_reading(now)
                &&& final(db)@ == #[trigger] after_redeem(old(db)@, token@, now)
                &&& match r {
                    Ok(identity) => redeem_outcome(old(db)@, token@, now) matches Ok(user)
                        && identity@ == identity_of(user),
                    Err(e) => redeem_outcome(old(db)@, token@, now) == Err::<UserView, AuthError>(
                        e,
                    ),
                }
            },
        r matches Err(e) ==> e == AuthError::NotFound,
{
    let now = unix_now();
    redeem_verification_at(db, token, now)
}

/// What asking at `now` for a password reset under the address `email`
/// comes to, when `token` is the token drawn: the token issued, or `None`
/// where no user has the address, the table holds the token already or the
/// token's expiry does not fit.
pub open spec fn forgot_outcome(
    db: DatabaseView,
    email: Seq<char>,
    token: Seq<char>,
    now: int,
) -> Option<VerificationTokenView> {
    match db.user_by_email(email) {
        None => None,
        Some(user) => if issuable(db.users, db.password_resets, token, user.id, now) is Ok {
            Some(one_time_token(token, user.id, now))
        } else {
            None
        },
    }
}

/// The store after asking for a password reset: where a token is issued,
/// the table of password-reset tokens holds it; otherwise nothing changes.
pub open spec fn after_forgot(
    db: DatabaseView,
    email: Seq<char>,
    token: Seq<char>,
    now: int,
) -> DatabaseView {
    match forgot_outcome(db, email, token, now) {
        Some(issued) => db.with_password_reset(issued),
        None => db,
    }
}

/// The view of a token that was or was not issued.
pub open spec fn issued_view(issued: Option<VerificationToken>) -> Option<VerificationTokenView> {
    match issued {
        Some(token) => Some(token@),
        None => None,
    }
}

/// Issues the password-reset token `token` at `now` to the user with the
/// address `email`, if there is one. The token is to be sent to that
/// address; the caller answers the same whether or not one was issued.
pub fn forgot_password_with(db: &mut Database, email: &str, token: String, now: i64) -> (r: Option<
    VerificationToken,
>)
    requires
        old(db).wf(),
    ensures
        final(db).wf(),
        issued_view(r) == forgot_outcome(old(db)@, email@, token@, now as int),
        final(db)@ == after_forgot(old(db)@, email@, token@, now as int),
{
    let user = match db.select_user_by_email(email) {
        Ok(user) => user,
        Err(_) => {
            return None;
        },
    };
    match db.issue_password_reset_token(token, user.id.as_str(), now) {
        Ok(issued) => Some(issued),
        Err(_) => None,
    }
}

/// Issues a fresh password-reset token, as of the present time, to the user
/// with the address `email`, if there is one.
///
/// The token and the time are drawn here. Whatever is drawn, the result and
/// the store are what [`forgot_outcome`] and [`after_forgot`] give for it:
/// the token issued belongs to the user with that address, was not in the
/// table and expires one day after the time drawn; and no token is issued
/// only where no user has the address or the token drawn is in the table
/// already, so a user whose table is empty is always issued one.
pub fn forgot_password(db: &mut Database, email: &str) -> (r: Option<VerificationToken>)
    requires
        old(db).wf(),
    ensures
        final(db).wf(),
        exists|token: Seq<char>, now: int|
            {
                &&& is_clock_reading(now)
                &&& issued_view(r) == #[trigger] forgot_outcome(old(db)@, email@, token, now)
                &&& final(db)@ == after_forgot(old(db)@, email@, token, now)
            },
        match r {
            Some(issued) => {
                &&& old(db)@.user_by_email(email@) matches Some(user)
                &&& issued@.user_id == user.id
                &&& !has_token(old(db)@.password_resets, issued@.token)
                &&& final(db)@ == old(db)@.with_password_reset(issued@)
            },
            None => final(db)@ == old(db)@,
        },
        old(db)@.user_by_email(email@) is None ==> r is None,
        old(db)@.user_by_email(email@) is Some && old(db)@.password_resets.len() == 0 ==> r
            is Some,
{
    let token = fresh_id();
    let now = unix_now();
    let ghost drawn = token@;
    proof {
        if has_email(db@.users, email@) {
            let i = email_index(db@.users, email@);
            assert(email_at(db@.users, email@, i));
            assert(user_at(db@.users, db@.users[i].id, i));
        }
    }
    let r = forgot_password_with(db, email, token, now);
    assert(issued_view(r) == forgot_outcome(old(db)@, email@, drawn, now as int));
    r
}

/// What redeeming the password-reset token `token` at `now` comes to: the
/// user it was issued to, or `NotFound` where the token is missing or has
/// expired.
pub open spec fn reset_outcome(db: DatabaseView, token: Seq<char>, now: int) -> Result<
    UserView,
    AuthError,
> {
    match redeemable(db.password_resets, token, now) {
        Err(e) => Err(store_error(e)),
        Ok(_) => Ok(
            db.user_by_id(db.password_resets[token_index(db.password_resets, token)].user_id)
                .unwrap(),
        ),
    }
}

/// The store after a password reset with `token` at `now`: where that
/// succeeds, the token is gone and its user has the digest `password_hash`.
pub open spec fn after_reset(
    db: DatabaseView,
    token: Seq<char>,
    password_hash: Seq<char>,
    now: int,
) -> DatabaseView {
    match reset_outcome(db, token, now) {
        Ok(user) => db.without_password_reset(token).with_password_hash(user.id, password_hash),
        Err(_) => db,
    }
}

/// Redeems the password-reset token `token` as of `now` and gives its user
/// the digest `password_hash`. The user's status is not changed.
pub fn reset_password_with(db: &mut Database, token: &str, password_hash: &str, now: i64) -> (r:
    Result<PublicIdentity, AuthError>)
    requires
        old(db).wf(),
    ensures
        final(db).wf(),
        final(db)@ == after_reset(old(db)@, token@, password_hash@, now as int),
        match r {
            Ok(identity) => {
                &&& reset_outcome(old(db)@, token@, now as int) matches Ok(user)
                &&& identity@ == identity_of(user)
                &&& final(db)@.user_by_id(user.id) == Some(
                    UserView { password_hash: password_hash@, ..user },
                )
            },
            Err(e) => reset_outcome(old(db)@, token@, now as int) == Err::<UserView, AuthError>(e),
        },
{
    let user = match db.redeem_password_reset_token_at(token, now) {
        Ok(user) => user,
        Err(e) => {
            return Err(from_store_error(e));
        },
    };
    match db.set_password_hash(user.id.as_str(), password_hash) {
        Ok(changed) => Ok(public_identity(&changed)),
        // Not reached: the store returned this user.
        Err(_) => Err(AuthError::Internal),
    }
}

/// Redeems the password-reset token `token` as of the present time and sets
/// the password of its user to `new_password`.
///
/// `ValidationError` is returned exactly where the new password has not an
/// accepted length; otherwise `NotFound` where the token is missing or has
/// expired, and `Internal` only where hashing fails. On any error the store
/// is as it was, and the token can still be redeemed.
pub fn reset_password(db: &mut Database, token: &str, new_password: &str) -> (r: Result<
    PublicIdentity,
    AuthError,
>)
    requires
        old(db).wf(),
    ensures
        final(db).wf(),
        match r {
            Ok(identity) => {
                &&& password_ok(new_password@)
                &&& exists|now: int|
                    {
                        &&& is_clock_reading(now)
                        &&& #[trigger] reset_outcome(old(db)@, token@, now) matches Ok(user)
                        &&& identity@ == identity_of(user)
                        &&& final(db)@.user_by_id(user.id) matches Some(changed)
                        &&& password_matches(new_password@, changed.password_hash)
                        &&& final(db)@ == after_reset(
                            old(db)@,
                            token@,
                            changed.password_hash,
                            now,
                        )
                    }
            },
            Err(e) => {
                &&& final(db)@ == old(db)@
                &&& e == AuthError::ValidationError <==> !password_ok(new_password@)
                &&& e == AuthError::ValidationError || e == AuthError::NotFound || e
                    == AuthError::Internal
                &&& password_ok(new_password@) && !has_token(old(db)@.password_resets, token@)
                    ==> e == AuthError::NotFound
            },
        },
{
    if !password_is_acceptable(new_password) {
        return Err(AuthError::ValidationError);
    }
    if !db.has_password_reset_token(token) {
        return Err(AuthError::NotFound);
    }
    let password_hash = match bcrypt_hash(new_password) {
        Ok(hash) => hash,
        Err(_) => {
            return Err(AuthError::Internal);
        },
    };
    let now = unix_now();
    reset_password_with(db, token, password_hash.as_str(), now)
}

/// Whether a refresh with `refresh_token` at `now` gets as far as the issue
/// of the tokens: a session holds the token, it has not expired, and its
/// user has a secret.
pub open spec fn session_holds(db: DatabaseView, refresh_token: Seq<char>, now: int) -> bool {
    &&& db.session_by_token(refresh_token) matches Some(session)
    &&& session.expires_at >= now
    &&& db.secret_of(session.user_id) is Some
}

/// What a refresh at `now` comes to: the new access token and the new
/// refresh token, or the error.
///
/// A refresh token that is not in force and one whose session has expired
/// both give `Unauthorized`.
pub open spec fn refresh_outcome(db: DatabaseView, refresh_token: Seq<char>, now: int) -> Result<
    (Seq<char>, Seq<char>),
    AuthError,
> {
    match db.session_by_token(refresh_token) {
        None => Err(AuthError::Unauthorized),
        Some(session) => if session.expires_at < now {
            Err(AuthError::Unauthorized)
        } else {
            match db.secret_of(session.user_id) {
                None => Err(AuthError::Internal),
                Some(secret) => issue_pair(
                    db,
                    session.user_id,
                    key_bytes(secret.key_material),
                    now,
                ),
            }
        },
    }
}

/// Exchanges a refresh token for a new pair of tokens as of `now`. The
/// user's session becomes the one of the new refresh token, so the old
/// token is in force no longer, unless the new one is the same text.
pub fn refresh_at(db: &mut Database, refresh_token: &str, now: i64) -> (r: Result<
    LoginTokens,
    AuthError,
>)
    requires
        old(db).wf(),
    ensures
        final(db).wf(),
        match r {
            Ok(tokens) => {
                &&& refresh_outcome(old(db)@, refresh_token@, now as int) == Ok::<
                    (Seq<char>, Seq<char>),
                    AuthError,
                >((tokens.access_token@, tokens.refresh_token@))
                &&& tokens.expires_in == TokenKind::Access.lifetime_secs()
                &&& final(db)@ == old(db)@.with_session(
                    session_at_login(
                        old(db)@.session_by_token(refresh_token@).unwrap().user_id,
                        tokens.refresh_token@,
                        now as int,
                    ),
                )
                &&& tokens.refresh_token@ != refresh_token@ ==> !has_session(
                    final(db)@.sessions,
                    refresh_token@,
                )
                &&& old(db)@.session_by_token(refresh_token@) matches Some(session)
                &&& old(db)@.secret_of(session.user_id) matches Some(secret)
                &&& now >= 0 ==> pair_decodes(
                    tokens.access_token@,
                    tokens.refresh_token@,
                    session.user_id,
                    key_bytes(secret.key_material),
                    now as int,
                )
            },
            Err(e) => {
                &&& refresh_outcome(old(db)@, refresh_token@, now as int) == Err::<
                    (Seq<char>, Seq<char>),
                    AuthError,
                >(e)
                &&& final(db)@ == old(db)@
            },
        },
        session_holds(old(db)@, refresh_token@, now as int) && now
            + TokenKind::Refresh.lifetime_secs() <= i64::MAX && old(db)@.sessions.len() == 1
            ==> r is Ok,
{
    let session = match db.find_session_by_refresh_token(refresh_token) {
        Ok(session) => session,
        Err(_) => {
            return Err(AuthError::Unauthorized);
        },
    };
    if session.expires_at < now {
        return Err(AuthError::Unauthorized);
    }
    let secret = match db.get_secret_for_user(session.user_id.as_str()) {
        Ok(secret) => secret,
        Err(_) => {
            return Err(AuthError::Internal);
        },
    };
    proof {
        let k = session_index(db@.sessions, refresh_token@);
        assert(session_at(db@.sessions, refresh_token@, k));
        assert(has_user(db@.users, db@.sessions[k].user_id));
    }
    let key = secret.key_material.as_str().as_bytes();
    let r = open_session(db, session.user_id.as_str(), key, now);
    proof {
        if let Ok(tokens) = &r {
            if tokens.refresh_token@ != refresh_token@ {
                lemma_replaced_session_is_closed(
                    old(db)@,
                    refresh_token@,
                    session_at_login(session@.user_id, tokens.refresh_token@, now as int),
                );
            }
        }
    }
    r
}

/// What holds of a successful refresh at the reading `now` of the clock:
/// what [`refresh_outcome`] says of it, that the user's session is the one
/// of the new refresh token, and that both tokens decode under the user's
/// secret to the claims they were issued with.
pub open spec fn refreshed(
    before: DatabaseView,
    after: DatabaseView,
    refresh_token: Seq<char>,
    access_token: Seq<char>,
    new_refresh_token: Seq<char>,
    now: int,
) -> bool {
    &&& is_clock_reading(now)
    &&& refresh_outcome(before, refresh_token, now) == Ok::<(Seq<char>, Seq<char>), AuthError>(
        (access_token, new_refresh_token),
    )
    &&& before.session_by_token(refresh_token) matches Some(session)
    &&& before.secret_of(session.user_id) matches Some(secret)
    &&& after == before.with_session(session_at_login(session.user_id, new_refresh_token, now))
    &&& pair_decodes(
        access_token,
        new_refresh_token,
        session.user_id,
        key_bytes(secret.key_material),
        now,
    )
}

/// What holds of a refresh that failed with `e` at the reading `now` of the
/// clock.
pub open spec fn refresh_failed(
    before: DatabaseView,
    refresh_token: Seq<char>,
    e: AuthError,
    now: int,
) -> bool {
    &&& is_clock_reading(now)
    &&& refresh_outcome(before, refresh_token, now) == Err::<(Seq<char>, Seq<char>), AuthError>(e)
}

/// Exchanges a refresh token for a new pair of tokens as of the present
/// time. Whatever the clock reads, the outcome is that of [`refresh_at`]
/// for that reading.
pub fn refresh(db: &mut Database, refresh_token: &str) -> (r: Result<LoginTokens, AuthError>)
    requires
        old(db).wf(),
    ensures
        final(db).wf(),
        match r {
            Ok(tokens) => {
                &&& exists|now: int| #[trigger]
                    refreshed(
                        old(db)@,
                        final(db)@,
                        refresh_token@,
                        tokens.access_token@,
                        tokens.refresh_token@,
                        now,
                    )
                &&& tokens.expires_in == TokenKind::Access.lifetime_secs()
                &&& tokens.refresh_token@ != refresh_token@ ==> !has_session(
                    final(db)@.sessions,
                    refresh_token@,
                )
            },
            Err(e) => {
                &&& final(db)@ == old(db)@
                &&& exists|now: int| #[trigger] refresh_failed(old(db)@, refresh_token@, e, now)
                &&& !has_session(old(db)@.sessions, refresh_token@) ==> e
                    == AuthError::Unauthorized
            },
        },
{
    let now = unix_now();
    let r = refresh_at(db, refresh_token, now);
    proof {
        match &r {
            Ok(tokens) => {
                assert(refreshed(
                    old(db)@,
                    db@,
                    refresh_token@,
                    tokens.access_token@,
                    tokens.refresh_token@,
                    now as int,
                ));
            },
            Err(e) => {
                assert(refresh_failed(old(db)@, refresh_token@, *e, now as int));
            },
        }
    }
    r
}

/// Closes the session that holds `refresh_token`. `Unauthorized` is
/// returned where no session holds it. Afterwards the token is in force no
/// longer.
pub fn logout(db: &mut Database, refresh_token: &str) -> (r: Result<(), AuthError>)
    requires
        old(db).wf(),
    ensures
        final(db).wf(),
        final(db)@ == old(db)@.without_session(refresh_token@),
        !has_session(final(db)@.sessions, refresh_token@),
        match r {
            Ok(_) => has_session(old(db)@.sessions, refresh_token@),
            Err(e) => e == AuthError::Unauthorized && !has_session(
                old(db)@.sessions,
                refresh_token@,
            ),
        },
{
    if db.revoke_session(refresh_token) {
        Ok(())
    } else {
        Err(AuthError::Unauthorized)
    }
}

} // verus!
