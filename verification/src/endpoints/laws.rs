//! What holds of the flows taken together.

use vstd::prelude::*;
use crate::db::lemmas::{
    lemma_email_index, lemma_push_keeps_users, lemma_push_token, lemma_remove_session,
    lemma_remove_token, lemma_replaced_session_is_closed, lemma_session_index,
    lemma_update_user, lemma_user_index, lemma_with_secret, lemma_with_user,
};
use crate::db::model::{
    email_at, email_index, has_email, has_session, has_user, one_time_token, session_index,
    token_at, token_index, user_at, user_index, DatabaseView,
};
use crate::endpoints::auth::{
    after_login, after_redeem, after_register, after_reset, credentials_hold, issue_pair,
    key_bytes, login_outcome, redeem_outcome, refresh_outcome, registrable, registration,
    reset_outcome, AuthError,
};
use crate::models::auth::{
    login_refused, register_refused, SecretView, SessionView, ValidationErrors,
};
use crate::models::users::{new_user, UserStatus, UserView};
use crate::password::password_matches;

verus! {

/// A registration leaves the store consistent: in particular every secret
/// has its user. The new user is found by its address, and its secret by
/// its identifier.
pub proof fn law_registration_is_consistent(
    db: DatabaseView,
    user: UserView,
    secret: SecretView,
    token: Seq<char>,
    now: int,
)
    requires
        db.wf(),
        secret.user_id == user.id,
        registrable(db, user.id, secret.id, user.email, token, now) is Ok,
    ensures
        after_register(db, user, secret, one_time_token(token, user.id, now)).wf(),
        after_register(db, user, secret, one_time_token(token, user.id, now)).user_by_email(
            user.email,
        ) == Some(user),
        after_register(db, user, secret, one_time_token(token, user.id, now)).secret_of(user.id)
            == Some(secret),
        forall|i: int|
            0 <= i < db.secrets.len() + 1 ==> has_user(
                db.users.push(user),
                (#[trigger] db.secrets.push(secret)[i]).user_id,
            ),
{
    lemma_with_user(db, user);
    lemma_push_keeps_users(db.users, user);
    lemma_with_secret(db.with_user(user), secret);
    let with_pair = db.with_user(user).with_secret(secret);
    lemma_push_token(
        with_pair.users,
        with_pair.verification_tokens,
        one_time_token(token, user.id, now),
    );
    assert(email_at(with_pair.users, user.email, db.users.len() as int));
    lemma_email_index(with_pair.users, user.email, db.users.len() as int);
}

/// Of two registrations under one address the second, if it keeps the
/// format rules, is refused with `Conflict`, whatever identifiers it draws
/// and whenever it is made.
pub proof fn law_second_registration_conflicts(
    db: DatabaseView,
    user: UserView,
    secret: SecretView,
    token: Seq<char>,
    now: int,
    refused: ValidationErrors,
    user_id: Seq<char>,
    secret_id: Seq<char>,
    other_token: Seq<char>,
    later: int,
)
    requires
        db.wf(),
        secret.user_id == user.id,
        registrable(db, user.id, secret.id, user.email, token, now) is Ok,
    ensures
        registration(
            after_register(db, user, secret, one_time_token(token, user.id, now)),
            refused,
            user_id,
            secret_id,
            user.email,
            other_token,
            later,
        ) == Err::<(), AuthError>(
            if refused.any() {
                AuthError::ValidationError
            } else {
                AuthError::Conflict
            },
        ),
{
    lemma_push_keeps_users(db.users, user);
}

/// A registration that breaks a format rule is refused for that, whatever
/// the store holds and whatever is drawn.
pub proof fn law_malformed_registration_is_refused(
    db: DatabaseView,
    refused: ValidationErrors,
    user_id: Seq<char>,
    secret_id: Seq<char>,
    email: Seq<char>,
    token: Seq<char>,
    now: int,
)
    ensures
        registration(db, refused, user_id, secret_id, email, token, now) == Err::<
            (),
            AuthError,
        >(AuthError::ValidationError) <==> refused.any(),
{
}

/// Where an address is taken, a registration under it is refused with
/// `Conflict`; where it is free, it is not.
pub proof fn law_conflict_means_taken(
    db: DatabaseView,
    user_id: Seq<char>,
    secret_id: Seq<char>,
    email: Seq<char>,
    token: Seq<char>,
    now: int,
)
    ensures
        registrable(db, user_id, secret_id, email, token, now) == Err::<(), AuthError>(
            AuthError::Conflict,
        ) <==> has_email(db.users, email),
{
}

/// After a registration, a login with the same address and password is not
/// refused for its credentials: it comes to what the issue of the two tokens
/// under the new secret comes to.
pub proof fn law_registered_credentials_are_accepted(
    db: DatabaseView,
    user: UserView,
    secret: SecretView,
    token: Seq<char>,
    now: int,
    password: Seq<char>,
    later: int,
)
    requires
        db.wf(),
        secret.user_id == user.id,
        registration(
            db,
            register_refused(user.username, user.email, password),
            user.id,
            secret.id,
            user.email,
            token,
            now,
        ) is Ok,
        password_matches(password, user.password_hash),
    ensures
        ({
            let after = after_register(db, user, secret, one_time_token(token, user.id, now));
            &&& credentials_hold(after, user.email, password)
            &&& login_outcome(after, user.email, password, later) == issue_pair(
                after,
                user.id,
                key_bytes(secret.key_material),
                later,
            )
        }),
{
    law_registration_is_consistent(db, user, secret, token, now);
}

/// A verification token is redeemed once: the first redemption makes the
/// user active, and a second one of the same token, at any time, is refused
/// with `NotFound` and changes nothing.
pub proof fn law_redeem_once(db: DatabaseView, token: Seq<char>, now: int, later: int)
    requires
        db.wf(),
        redeem_outcome(db, token, now) is Ok,
    ensures
        after_redeem(db, token, now).wf(),
        after_redeem(db, token, now).user_by_id(redeem_outcome(db, token, now).unwrap().id)
            == Some(
            UserView { status: UserStatus::Active, ..redeem_outcome(db, token, now).unwrap() },
        ),
        redeem_outcome(after_redeem(db, token, now), token, later) == Err::<UserView, AuthError>(
            AuthError::NotFound,
        ),
        after_redeem(after_redeem(db, token, now), token, later) == after_redeem(db, token, now),
{
    let k = token_index(db.verification_tokens, token);
    assert(token_at(db.verification_tokens, token, k));
    lemma_remove_token(db.users, db.verification_tokens, k);
    let taken = db.without_verification_token(token);
    let user = redeem_outcome(db, token, now).unwrap();
    assert(has_user(db.users, db.verification_tokens[k].user_id));
    let i = user_index(db.users, user.id);
    assert(user_at(db.users, db.verification_tokens[k].user_id, i));
    let active = UserView { status: UserStatus::Active, ..taken.users[i] };
    lemma_update_user(taken, i, active);
    assert(user_at(taken.users.update(i, active), user.id, i));
    lemma_user_index(taken.users.update(i, active), user.id, i);
}

/// A redemption that is refused changes nothing.
pub proof fn law_refused_redemption_changes_nothing(db: DatabaseView, token: Seq<char>, now: int)
    requires
        redeem_outcome(db, token, now) is Err,
    ensures
        after_redeem(db, token, now) == db,
{
}

/// A refresh token whose session was closed is refused with `Unauthorized`.
pub proof fn law_closed_session_is_refused(db: DatabaseView, refresh_token: Seq<char>, now: int)
    requires
        db.wf(),
    ensures
        refresh_outcome(db.without_session(refresh_token), refresh_token, now) == Err::<
            (Seq<char>, Seq<char>),
            AuthError,
        >(AuthError::Unauthorized),
{
    if has_session(db.sessions, refresh_token) {
        let k = session_index(db.sessions, refresh_token);
        lemma_session_index(db.users, db.sessions, refresh_token, k);
        lemma_remove_session(db.users, db.sessions, k);
    }
}

/// A refresh token that gave way to another is refused with `Unauthorized`.
pub proof fn law_replaced_session_is_refused(
    db: DatabaseView,
    refresh_token: Seq<char>,
    session: SessionView,
    now: int,
)
    requires
        db.wf(),
        db.session_by_token(refresh_token) matches Some(held) && held.user_id == session.user_id,
        session.refresh_token != refresh_token,
    ensures
        refresh_outcome(db.with_session(session), refresh_token, now) == Err::<
            (Seq<char>, Seq<char>),
            AuthError,
        >(AuthError::Unauthorized),
{
    lemma_replaced_session_is_closed(db, refresh_token, session);
}

/// A password-reset token is redeemed once: after a reset with it, a second
/// one, at any time and with any digest, is refused with `NotFound` and
/// changes nothing.
pub proof fn law_reset_once(
    db: DatabaseView,
    token: Seq<char>,
    password_hash: Seq<char>,
    now: int,
    other_hash: Seq<char>,
    later: int,
)
    requires
        db.wf(),
        reset_outcome(db, token, now) is Ok,
    ensures
        after_reset(db, token, password_hash, now).wf(),
        reset_outcome(after_reset(db, token, password_hash, now), token, later) == Err::<
            UserView,
            AuthError,
        >(AuthError::NotFound),
        after_reset(after_reset(db, token, password_hash, now), token, other_hash, later)
            == after_reset(db, token, password_hash, now),
{
    let k = token_index(db.password_resets, token);
    assert(token_at(db.password_resets, token, k));
    lemma_remove_token(db.users, db.password_resets, k);
    let taken = db.without_password_reset(token);
    let user = reset_outcome(db, token, now).unwrap();
    assert(has_user(db.users, db.password_resets[k].user_id));
    let i = user_index(db.users, user.id);
    assert(user_at(db.users, db.password_resets[k].user_id, i));
    lemma_update_user(taken, i, UserView { password_hash, ..taken.users[i] });
}

/// After a password reset, a login with the new password that keeps the
/// format rules is not refused for its credentials.
pub proof fn law_reset_password_is_accepted(
    db: DatabaseView,
    token: Seq<char>,
    password_hash: Seq<char>,
    now: int,
    password: Seq<char>,
    later: int,
)
    requires
        db.wf(),
        reset_outcome(db, token, now) is Ok,
        password_matches(password, password_hash),
        !login_refused(reset_outcome(db, token, now).unwrap().email, password).any(),
    ensures
        ({
            let user = reset_outcome(db, token, now).unwrap();
            let after = after_reset(db, token, password_hash, now);
            &&& after.user_by_email(user.email) == Some(UserView { password_hash, ..user })
            &&& login_outcome(after, user.email, password, later) == match after.secret_of(
                user.id,
            ) {
                Some(secret) => issue_pair(after, user.id, key_bytes(secret.key_material), later),
                None => Err(AuthError::Internal),
            }
        }),
{
    let k = token_index(db.password_resets, token);
    assert(token_at(db.password_resets, token, k));
    lemma_remove_token(db.users, db.password_resets, k);
    let taken = db.without_password_reset(token);
    let user = reset_outcome(db, token, now).unwrap();
    assert(has_user(db.users, db.password_resets[k].user_id));
    let i = user_index(db.users, user.id);
    assert(user_at(db.users, db.password_resets[k].user_id, i));
    let changed = UserView { password_hash, ..taken.users[i] };
    lemma_update_user(taken, i, changed);
    assert(email_at(taken.users.update(i, changed), user.email, i));
    lemma_email_index(taken.users.update(i, changed), user.email, i);
}

/// Every user of `before` is a user of `after`, in the same row and under
/// the same identifier and address, and whoever was active still is.
pub open spec fn users_carried_over(before: DatabaseView, after: DatabaseView) -> bool {
    &&& before.users.len() <= after.users.len()
    &&& forall|i: int|
        0 <= i < before.users.len() ==> {
            &&& (#[trigger] after.users[i]).id == before.users[i].id
            &&& after.users[i].email == before.users[i].email
            &&& before.users[i].status == UserStatus::Active ==> after.users[i].status
                == UserStatus::Active
        }
}

/// The users of `after` are those of `before`, each with the status it had.
pub open spec fn statuses_kept(before: DatabaseView, after: DatabaseView) -> bool {
    &&& before.users.len() == after.users.len()
    &&& forall|i: int|
        0 <= i < before.users.len() ==> (#[trigger] after.users[i]).status
            == before.users[i].status
}

/// A registration changes no user that was there, and the user it adds is
/// unverified.
pub proof fn law_registration_keeps_statuses(
    db: DatabaseView,
    user_id: Seq<char>,
    secret: SecretView,
    username: Seq<char>,
    email: Seq<char>,
    password_hash: Seq<char>,
    token: Seq<char>,
    now: int,
)
    ensures
        ({
            let user = new_user(user_id, username, email, password_hash, now);
            let after = after_register(db, user, secret, one_time_token(token, user_id, now));
            &&& users_carried_over(db, after)
            &&& after.users.len() == db.users.len() + 1
            &&& after.users.last().status == UserStatus::Unverified
            &&& forall|i: int|
                0 <= i < db.users.len() ==> (#[trigger] after.users[i]) == db.users[i]
        }),
{
}

/// A login changes no status: it notes the time in the record of the user
/// who logged in, and nothing else of any user.
pub proof fn law_login_keeps_statuses(
    db: DatabaseView,
    email: Seq<char>,
    refresh_token: Seq<char>,
    now: int,
)
    requires
        db.wf(),
        db.user_by_email(email) is Some,
    ensures
        statuses_kept(db, after_login(db, email, refresh_token, now)),
        users_carried_over(db, after_login(db, email, refresh_token, now)),
{
    let k = email_index(db.users, email);
    assert(email_at(db.users, email, k));
    assert(user_at(db.users, db.users[k].id, k));
    lemma_user_index(db.users, db.users[k].id, k);
}

/// A redemption makes one user active and changes no other status; a user
/// that is active stays so.
pub proof fn law_redemption_raises_one_status(db: DatabaseView, token: Seq<char>, now: int)
    requires
        db.wf(),
    ensures
        users_carried_over(db, after_redeem(db, token, now)),
        redeem_outcome(db, token, now) matches Ok(user) ==> forall|i: int|
            0 <= i < db.users.len() && db.users[i].id != user.id ==> (#[trigger] after_redeem(
                db,
                token,
                now,
            ).users[i]) == db.users[i],
{
    if redeem_outcome(db, token, now) is Ok {
        let k = token_index(db.verification_tokens, token);
        assert(token_at(db.verification_tokens, token, k));
        assert(has_user(db.users, db.verification_tokens[k].user_id));
        let user = redeem_outcome(db, token, now).unwrap();
        let i = user_index(db.users, user.id);
        assert(user_at(db.users, db.verification_tokens[k].user_id, i));
    }
}

/// A password reset changes no status.
pub proof fn law_reset_keeps_statuses(
    db: DatabaseView,
    token: Seq<char>,
    password_hash: Seq<char>,
    now: int,
)
    requires
        db.wf(),
    ensures
        statuses_kept(db, after_reset(db, token, password_hash, now)),
        users_carried_over(db, after_reset(db, token, password_hash, now)),
{
    if reset_outcome(db, token, now) is Ok {
        let k = token_index(db.password_resets, token);
        assert(token_at(db.password_resets, token, k));
        assert(has_user(db.users, db.password_resets[k].user_id));
        let user = reset_outcome(db, token, now).unwrap();
        let i = user_index(db.users, user.id);
        assert(user_at(db.users, db.password_resets[k].user_id, i));
    }
}

/// Opening and closing sessions changes no user.
pub proof fn law_sessions_keep_users(
    db: DatabaseView,
    session: SessionView,
    refresh_token: Seq<char>,
)
    ensures
        db.with_session(session).users == db.users,
        db.without_session(refresh_token).users == db.users,
{
}

} // verus!
