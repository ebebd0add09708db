//! Why the operations of the store keep its tables consistent.

use vstd::prelude::*;
use crate::db::model::{
    email_at, email_index, has_email, has_secret_id, has_secret_of, has_session, has_session_of,
    has_token, has_user, secret_id_at, secret_of_at, secret_of_index, secrets_consistent,
    session_at, session_index, session_of_at, session_of_index, sessions_consistent, token_at,
    token_index, tokens_consistent, user_at, user_index, users_consistent, DatabaseView,
};
use crate::models::auth::{SecretView, SessionView, VerificationTokenView};
use crate::models::users::UserView;

verus! {

/// Among consistent users an address is found in one row only.
pub proof fn lemma_email_index(users: Seq<UserView>, email: Seq<char>, i: int)
    requires
        users_consistent(users),
        email_at(users, email, i),
    ensures
        has_email(users, email),
        email_index(users, email) == i,
{
    let j = email_index(users, email);
    assert(email_at(users, email, j));
    if i < j {
        assert(users[i].email != users[j].email);
    } else if j < i {
        assert(users[j].email != users[i].email);
    }
}

/// Among consistent users an identifier is found in one row only.
pub proof fn lemma_user_index(users: Seq<UserView>, id: Seq<char>, i: int)
    requires
        users_consistent(users),
        user_at(users, id, i),
    ensures
        has_user(users, id),
        user_index(users, id) == i,
{
    let j = user_index(users, id);
    assert(user_at(users, id, j));
    if i < j {
        assert(users[i].id != users[j].id);
    } else if j < i {
        assert(users[j].id != users[i].id);
    }
}

/// Among consistent secrets a user's secret is found in one row only.
pub proof fn lemma_secret_of_index(
    users: Seq<UserView>,
    secrets: Seq<SecretView>,
    user_id: Seq<char>,
    i: int,
)
    requires
        secrets_consistent(users, secrets),
        secret_of_at(secrets, user_id, i),
    ensures
        has_secret_of(secrets, user_id),
        secret_of_index(secrets, user_id) == i,
{
    let j = secret_of_index(secrets, user_id);
    assert(secret_of_at(secrets, user_id, j));
    if i < j {
        assert(secrets[i].user_id != secrets[j].user_id);
    } else if j < i {
        assert(secrets[j].user_id != secrets[i].user_id);
    }
}

/// Among consistent one-time tokens a token is found in one row only.
pub proof fn lemma_token_index(
    users: Seq<UserView>,
    tokens: Seq<VerificationTokenView>,
    token: Seq<char>,
    i: int,
)
    requires
        tokens_consistent(users, tokens),
        token_at(tokens, token, i),
    ensures
        has_token(tokens, token),
        token_index(tokens, token) == i,
{
    let j = token_index(tokens, token);
    assert(token_at(tokens, token, j));
    if i < j {
        assert(tokens[i].token != tokens[j].token);
    } else if j < i {
        assert(tokens[j].token != tokens[i].token);
    }
}

/// Among consistent sessions a refresh token is found in one row only.
pub proof fn lemma_session_index(
    users: Seq<UserView>,
    sessions: Seq<SessionView>,
    refresh_token: Seq<char>,
    i: int,
)
    requires
        sessions_consistent(users, sessions),
        session_at(sessions, refresh_token, i),
    ensures
        has_session(sessions, refresh_token),
        session_index(sessions, refresh_token) == i,
{
    let j = session_index(sessions, refresh_token);
    assert(session_at(sessions, refresh_token, j));
    if i < j {
        assert(sessions[i].refresh_token != sessions[j].refresh_token);
    } else if j < i {
        assert(sessions[j].refresh_token != sessions[i].refresh_token);
    }
}

/// Among consistent sessions a user's session is found in one row only.
pub proof fn lemma_session_of_index(
    users: Seq<UserView>,
    sessions: Seq<SessionView>,
    user_id: Seq<char>,
    i: int,
)
    requires
        sessions_consistent(users, sessions),
        session_of_at(sessions, user_id, i),
    ensures
        has_session_of(sessions, user_id),
        session_of_index(sessions, user_id) == i,
{
    let j = session_of_index(sessions, user_id);
    assert(session_of_at(sessions, user_id, j));
    if i < j {
        assert(sessions[i].user_id != sessions[j].user_id);
    } else if j < i {
        assert(sessions[j].user_id != sessions[i].user_id);
    }
}

/// Whoever is a user stays one when a user is added.
pub proof fn lemma_push_keeps_users(users: Seq<UserView>, user: UserView)
    ensures
        forall|id: Seq<char>| has_user(users, id) ==> #[trigger] has_user(users.push(user), id),
        has_user(users.push(user), user.id),
        has_email(users.push(user), user.email),
{
    assert forall|id: Seq<char>| has_user(users, id) implies #[trigger] has_user(
        users.push(user),
        id,
    ) by {
        let i = user_index(users, id);
        assert(user_at(users, id, i));
        assert(user_at(users.push(user), id, i));
    }
    assert(user_at(users.push(user), user.id, users.len() as int));
    assert(email_at(users.push(user), user.email, users.len() as int));
}

/// A user with a new address and a new identifier can be added to a
/// consistent store.
pub proof fn lemma_with_user(db: DatabaseView, user: UserView)
    requires
        db.wf(),
        !has_email(db.users, user.email),
        !has_user(db.users, user.id),
    ensures
        db.with_user(user).wf(),
        !has_secret_of(db.secrets, user.id),
{
    let users = db.users.push(user);
    assert forall|i: int, j: int| 0 <= i < j < users.len() implies (#[trigger] users[i]).email != (
    #[trigger] users[j]).email by {
        if j == db.users.len() {
            assert(!email_at(db.users, user.email, i));
        }
    }
    assert forall|i: int, j: int| 0 <= i < j < users.len() implies (#[trigger] users[i]).id != (
    #[trigger] users[j]).id by {
        if j == db.users.len() {
            assert(!user_at(db.users, user.id, i));
        }
    }
    lemma_push_keeps_users(db.users, user);
    if has_secret_of(db.secrets, user.id) {
        let k = secret_of_index(db.secrets, user.id);
        assert(secret_of_at(db.secrets, user.id, k));
        assert(has_user(db.users, db.secrets[k].user_id));
    }
}

/// A secret with a new identifier can be added for a user that has none.
pub proof fn lemma_with_secret(db: DatabaseView, secret: SecretView)
    requires
        db.wf(),
        has_user(db.users, secret.user_id),
        !has_secret_of(db.secrets, secret.user_id),
        !has_secret_id(db.secrets, secret.id),
    ensures
        db.with_secret(secret).wf(),
        db.with_secret(secret).secret_of(secret.user_id) == Some(secret),
{
    let secrets = db.secrets.push(secret);
    let n = db.secrets.len() as int;
    assert forall|i: int, j: int| 0 <= i < j < secrets.len() implies (
    #[trigger] secrets[i]).user_id != (#[trigger] secrets[j]).user_id by {
        if j == n {
            assert(!secret_of_at(db.secrets, secret.user_id, i));
        }
    }
    assert forall|i: int, j: int| 0 <= i < j < secrets.len() implies (#[trigger] secrets[i]).id != (
    #[trigger] secrets[j]).id by {
        if j == n {
            assert(!secret_id_at(db.secrets, secret.id, i));
        }
    }
    assert(secret_of_at(secrets, secret.user_id, n));
    lemma_secret_of_index(db.users, secrets, secret.user_id, n);
}

/// A new one-time token can be added for a user.
pub proof fn lemma_push_token(
    users: Seq<UserView>,
    tokens: Seq<VerificationTokenView>,
    token: VerificationTokenView,
)
    requires
        tokens_consistent(users, tokens),
        has_user(users, token.user_id),
        !has_token(tokens, token.token),
    ensures
        tokens_consistent(users, tokens.push(token)),
{
    let after = tokens.push(token);
    assert forall|i: int, j: int| 0 <= i < j < after.len() implies (#[trigger] after[i]).token != (
    #[trigger] after[j]).token by {
        if j == tokens.len() {
            assert(!token_at(tokens, token.token, i));
        }
    }
}

/// Taking a one-time token away leaves the table consistent and without
/// that token.
pub proof fn lemma_remove_token(
    users: Seq<UserView>,
    tokens: Seq<VerificationTokenView>,
    i: int,
)
    requires
        tokens_consistent(users, tokens),
        0 <= i < tokens.len(),
    ensures
        tokens_consistent(users, tokens.remove(i)),
        !has_token(tokens.remove(i), tokens[i].token),
{
    let after = tokens.remove(i);
    assert forall|k: int| 0 <= k < after.len() implies has_user(
        users,
        (#[trigger] after[k]).user_id,
    ) by {
        let from = if k < i { k } else { k + 1 };
        assert(after[k] == tokens[from]);
    }
    assert forall|a: int, b: int| 0 <= a < b < after.len() implies (#[trigger] after[a]).token != (
    #[trigger] after[b]).token by {
        let fa = if a < i { a } else { a + 1 };
        let fb = if b < i { b } else { b + 1 };
        assert(after[a] == tokens[fa]);
        assert(after[b] == tokens[fb]);
    }
    if has_token(after, tokens[i].token) {
        let k = token_index(after, tokens[i].token);
        assert(token_at(after, tokens[i].token, k));
        let from = if k < i { k } else { k + 1 };
        assert(after[k] == tokens[from]);
        if from < i {
            assert(tokens[from].token != tokens[i].token);
        } else {
            assert(tokens[i].token != tokens[from].token);
        }
    }
}

/// Taking a session away leaves the table consistent, without its refresh
/// token and without a session of its user.
pub proof fn lemma_remove_session(users: Seq<UserView>, sessions: Seq<SessionView>, i: int)
    requires
        sessions_consistent(users, sessions),
        0 <= i < sessions.len(),
    ensures
        sessions_consistent(users, sessions.remove(i)),
        !has_session(sessions.remove(i), sessions[i].refresh_token),
        !has_session_of(sessions.remove(i), sessions[i].user_id),
        forall|t: Seq<char>|
            t != sessions[i].refresh_token ==> (#[trigger] has_session(sessions.remove(i), t)
                <==> has_session(sessions, t)),
{
    let after = sessions.remove(i);
    assert forall|k: int| 0 <= k < after.len() implies has_user(
        users,
        (#[trigger] after[k]).user_id,
    ) by {
        let from = if k < i { k } else { k + 1 };
        assert(after[k] == sessions[from]);
    }
    assert forall|a: int, b: int| 0 <= a < b < after.len() implies (#[trigger] after[a]).user_id
        != (#[trigger] after[b]).user_id by {
        let fa = if a < i { a } else { a + 1 };
        let fb = if b < i { b } else { b + 1 };
        assert(after[a] == sessions[fa]);
        assert(after[b] == sessions[fb]);
    }
    assert forall|a: int, b: int| 0 <= a < b < after.len() implies (
    #[trigger] after[a]).refresh_token != (#[trigger] after[b]).refresh_token by {
        let fa = if a < i { a } else { a + 1 };
        let fb = if b < i { b } else { b + 1 };
        assert(after[a] == sessions[fa]);
        assert(after[b] == sessions[fb]);
    }
    if has_session(after, sessions[i].refresh_token) {
        let k = session_index(after, sessions[i].refresh_token);
        assert(session_at(after, sessions[i].refresh_token, k));
        let from = if k < i { k } else { k + 1 };
        assert(after[k] == sessions[from]);
        if from < i {
            assert(sessions[from].refresh_token != sessions[i].refresh_token);
        } else {
            assert(sessions[i].refresh_token != sessions[from].refresh_token);
        }
    }
    if has_session_of(after, sessions[i].user_id) {
        let k = session_of_index(after, sessions[i].user_id);
        assert(session_of_at(after, sessions[i].user_id, k));
        let from = if k < i { k } else { k + 1 };
        assert(after[k] == sessions[from]);
        if from < i {
            assert(sessions[from].user_id != sessions[i].user_id);
        } else {
            assert(sessions[i].user_id != sessions[from].user_id);
        }
    }
    assert forall|t: Seq<char>| t != sessions[i].refresh_token implies (#[trigger] has_session(
        after,
        t,
    ) <==> has_session(sessions, t)) by {
        if has_session(after, t) {
            let k = session_index(after, t);
            assert(session_at(after, t, k));
            let from = if k < i { k } else { k + 1 };
            assert(after[k] == sessions[from]);
            assert(session_at(sessions, t, from));
        }
        if has_session(sessions, t) {
            let k = session_index(sessions, t);
            assert(session_at(sessions, t, k));
            let to = if k < i { k } else { k - 1 };
            assert(after[to] == sessions[k]);
            assert(session_at(after, t, to));
        }
    }
}

/// A session can be added for a user that has none, under a refresh token
/// that is not in force.
pub proof fn lemma_push_session(
    users: Seq<UserView>,
    sessions: Seq<SessionView>,
    session: SessionView,
)
    requires
        sessions_consistent(users, sessions),
        has_user(users, session.user_id),
        !has_session(sessions, session.refresh_token),
        !has_session_of(sessions, session.user_id),
    ensures
        sessions_consistent(users, sessions.push(session)),
        session_at(sessions.push(session), session.refresh_token, sessions.len() as int),
{
    let after = sessions.push(session);
    let n = sessions.len() as int;
    assert forall|a: int, b: int| 0 <= a < b < after.len() implies (#[trigger] after[a]).user_id
        != (#[trigger] after[b]).user_id by {
        if b == n {
            assert(!session_of_at(sessions, session.user_id, a));
        }
    }
    assert forall|a: int, b: int| 0 <= a < b < after.len() implies (
    #[trigger] after[a]).refresh_token != (#[trigger] after[b]).refresh_token by {
        if b == n {
            assert(!session_at(sessions, session.refresh_token, a));
        }
    }
}

/// Changing a user's record, but neither its address nor its identifier,
/// leaves the store consistent and every lookup by key where it was.
pub proof fn lemma_update_user(db: DatabaseView, i: int, user: UserView)
    requires
        db.wf(),
        0 <= i < db.users.len(),
        user.id == db.users[i].id,
        user.email == db.users[i].email,
    ensures
        (DatabaseView { users: db.users.update(i, user), ..db }).wf(),
        forall|id: Seq<char>| #[trigger]
            has_user(db.users.update(i, user), id) <==> has_user(db.users, id),
        forall|email: Seq<char>| #[trigger]
            has_email(db.users.update(i, user), email) <==> has_email(db.users, email),
{
    let users = db.users.update(i, user);
    assert forall|id: Seq<char>| #[trigger] has_user(users, id) <==> has_user(db.users, id) by {
        if has_user(users, id) {
            let k = user_index(users, id);
            assert(user_at(users, id, k));
            assert(user_at(db.users, id, k));
        }
        if has_user(db.users, id) {
            let k = user_index(db.users, id);
            assert(user_at(db.users, id, k));
            assert(user_at(users, id, k));
        }
    }
    assert forall|email: Seq<char>| #[trigger]
        has_email(users, email) <==> has_email(db.users, email) by {
        if has_email(users, email) {
            let k = email_index(users, email);
            assert(email_at(users, email, k));
            assert(email_at(db.users, email, k));
        }
        if has_email(db.users, email) {
            let k = email_index(db.users, email);
            assert(email_at(db.users, email, k));
            assert(email_at(users, email, k));
        }
    }
    assert forall|a: int, b: int| 0 <= a < b < users.len() implies (#[trigger] users[a]).email != (
    #[trigger] users[b]).email by {
        assert(users[a].email == db.users[a].email);
        assert(users[b].email == db.users[b].email);
    }
    assert forall|a: int, b: int| 0 <= a < b < users.len() implies (#[trigger] users[a]).id != (
    #[trigger] users[b]).id by {
        assert(users[a].id == db.users[a].id);
        assert(users[b].id == db.users[b].id);
    }
}

/// Changing a user's record, but neither its address nor its identifier,
/// leaves every user where a lookup by address or identifier finds it.
pub proof fn lemma_update_user_lookup(db: DatabaseView, i: int, user: UserView)
    requires
        db.wf(),
        0 <= i < db.users.len(),
        user.id == db.users[i].id,
        user.email == db.users[i].email,
    ensures
        forall|email: Seq<char>|
            has_email(db.users, email) ==> #[trigger] email_index(
                db.users.update(i, user),
                email,
            ) == email_index(db.users, email),
        forall|id: Seq<char>|
            has_user(db.users, id) ==> #[trigger] user_index(db.users.update(i, user), id)
                == user_index(db.users, id),
{
    let users = db.users.update(i, user);
    lemma_update_user(db, i, user);
    assert forall|email: Seq<char>| has_email(db.users, email) implies #[trigger] email_index(
        users,
        email,
    ) == email_index(db.users, email) by {
        let k = email_index(db.users, email);
        assert(email_at(db.users, email, k));
        assert(email_at(users, email, k));
        lemma_email_index(users, email, k);
    }
    assert forall|id: Seq<char>| has_user(db.users, id) implies #[trigger] user_index(users, id)
        == user_index(db.users, id) by {
        let k = user_index(db.users, id);
        assert(user_at(db.users, id, k));
        assert(user_at(users, id, k));
        lemma_user_index(users, id, k);
    }
}

/// When a user's session gives way to a new one under another refresh
/// token, the old token is in force no longer.
pub proof fn lemma_replaced_session_is_closed(
    db: DatabaseView,
    refresh_token: Seq<char>,
    session: SessionView,
)
    requires
        db.wf(),
        db.session_by_token(refresh_token) matches Some(held) && held.user_id == session.user_id,
        session.refresh_token != refresh_token,
    ensures
        !has_session(db.with_session(session).sessions, refresh_token),
{
    let k = session_index(db.sessions, refresh_token);
    assert(session_at(db.sessions, refresh_token, k));
    assert(session_of_at(db.sessions, session.user_id, k));
    lemma_session_of_index(db.users, db.sessions, session.user_id, k);
    lemma_remove_session(db.users, db.sessions, k);
    let rest = db.sessions.remove(k);
    let after = rest.push(session);
    if has_session(after, refresh_token) {
        let j = session_index(after, refresh_token);
        assert(session_at(after, refresh_token, j));
        assert(session_at(rest, refresh_token, j));
    }
}

} // verus!
