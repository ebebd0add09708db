use authcore::db::database::Database;
use authcore::endpoints::auth::{
    forgot_password, forgot_password_with, from_store_error, login, login_at, logout,
    redeem_verification, redeem_verification_at, refresh, refresh_at, register, register_with,
    reset_password, reset_password_with, verify, verify_at, AuthError,
};
use authcore::db::error::DatabaseError;
use authcore::jwt::claims::TokenKind;
use authcore::jwt::jwt::verify_token_at;
use authcore::models::auth::{LoginInput, RegisterInput};
use authcore::models::users::UserStatus;

const NOW: i64 = 1_700_000_000;

fn register_input(username: &str, email: &str, password: &str) -> RegisterInput {
    RegisterInput {
        username: username.to_string(),
        email: email.to_string(),
        password: password.to_string(),
    }
}

fn login_input(email: &str, password: &str) -> LoginInput {
    LoginInput { email: email.to_string(), password: password.to_string() }
}

fn cheap_hash(password: &str) -> String {
    bcrypt::hash(password, 4).unwrap()
}

fn add(db: &mut Database, name: &str, password: &str) {
    let input = register_input(name, &format!("{name}@x.com"), password);
    register_with(
        db,
        &input,
        &cheap_hash(password),
        format!("u-{name}"),
        format!("s-{name}"),
        format!("key-{name}"),
        format!("v-{name}"),
        NOW,
    )
    .unwrap();
}

#[test]
fn register_login_verify_example() {
    let mut db = Database::new();
    let alice = register(&mut db, &register_input("alice", "alice@x.com", "secret1")).unwrap();
    assert_eq!(alice.identity.username, "alice");
    assert_eq!(alice.identity.email, "alice@x.com");
    assert!(!alice.identity.id.is_empty());
    add(&mut db, "bob", "hunter22");
    let tokens = login(&mut db, &login_input("alice@x.com", "secret1")).unwrap();
    assert_eq!(tokens.expires_in, 900);
    assert!(verify(&db, &tokens.access_token, "alice@x.com"));
    assert!(!verify(&db, &tokens.access_token, "bob@x.com"));
    assert!(!verify(&db, &tokens.access_token, "nobody@x.com"));
}

#[test]
fn registration_adds_user_secret_and_token() {
    let mut db = Database::new();
    let hash = cheap_hash("secret1");
    let done = register_with(
        &mut db,
        &register_input("alice", "alice@x.com", "secret1"),
        &hash,
        "u1".to_string(),
        "s1".to_string(),
        "k1".to_string(),
        "v1".to_string(),
        NOW,
    )
    .unwrap();
    assert_eq!(done.identity.id, "u1");
    assert_eq!(done.identity.username, "alice");
    assert_eq!(done.identity.email, "alice@x.com");
    assert_eq!(done.verification.token, "v1");
    assert_eq!(done.verification.user_id, "u1");
    assert_eq!(done.verification.expires_at, NOW + 86_400);
    let user = db.select_user_by_email("alice@x.com").unwrap();
    assert_eq!(user.id, "u1");
    assert_eq!(user.password_hash, hash);
    assert_eq!(user.created_at, NOW);
    assert_eq!(user.status, UserStatus::Unverified);
    assert_eq!(user.last_login, None);
    assert_eq!(db.get_secret_for_user("u1").unwrap().key_material, "k1");
    assert!(db.has_verification_token("v1"));
    assert_eq!((db.user_count(), db.secret_count(), db.verification_token_count()), (1, 1, 1));
}

#[test]
fn registered_password_is_stored_as_a_digest() {
    let mut db = Database::new();
    register(&mut db, &register_input("alice", "alice@x.com", "secret1")).unwrap();
    let user = db.select_user_by_email("alice@x.com").unwrap();
    assert_ne!(user.password_hash, "secret1");
    assert!(user.password_hash.starts_with("$2"));
    assert!(bcrypt::verify("secret1", &user.password_hash).unwrap());
    assert!(!bcrypt::verify("secret2", &user.password_hash).unwrap());
    let secret = db.get_secret_for_user(&user.id).unwrap();
    assert_ne!(secret.key_material, "secret1");
    assert_ne!(secret.key_material, user.password_hash);
}

#[test]
fn same_address_registers_once() {
    let mut db = Database::new();
    add(&mut db, "alice", "secret1");
    let again = register(&mut db, &register_input("alice2", "alice@x.com", "other-pass"));
    assert_eq!(again.unwrap_err(), AuthError::Conflict);
    assert_eq!((db.user_count(), db.secret_count(), db.verification_token_count()), (1, 1, 1));
    assert_eq!(db.select_user_by_email("alice@x.com").unwrap().username, "alice");
}

#[test]
fn refused_registration_changes_nothing() {
    let mut db = Database::new();
    add(&mut db, "alice", "secret1");
    let bob = register_input("bob", "bob@x.com", "hunter22");
    let attempt = |db: &mut Database, u: &str, s: &str, v: &str, now: i64| {
        register_with(
            db,
            &bob,
            "h",
            u.to_string(),
            s.to_string(),
            "k".to_string(),
            v.to_string(),
            now,
        )
        .map(|_| ())
    };
    assert_eq!(attempt(&mut db, "u-alice", "s-bob", "v-bob", NOW), Err(AuthError::Internal));
    assert_eq!(attempt(&mut db, "u-bob", "s-alice", "v-bob", NOW), Err(AuthError::Internal));
    assert_eq!(attempt(&mut db, "u-bob", "s-bob", "v-alice", NOW), Err(AuthError::Internal));
    assert_eq!(
        attempt(&mut db, "u-bob", "s-bob", "v-bob", i64::MAX - 86_399),
        Err(AuthError::Internal)
    );
    assert_eq!((db.user_count(), db.secret_count(), db.verification_token_count()), (1, 1, 1));
    assert!(!db.email_taken("bob@x.com"));
    assert_eq!(attempt(&mut db, "u-bob", "s-bob", "v-bob", NOW), Ok(()));
    assert_eq!((db.user_count(), db.secret_count(), db.verification_token_count()), (2, 2, 2));
}

#[test]
fn conflict_comes_before_any_other_refusal() {
    let mut db = Database::new();
    add(&mut db, "alice", "secret1");
    let r = register_with(
        &mut db,
        &register_input("another", "alice@x.com", "secret1"),
        "h",
        "u-alice".to_string(),
        "s-alice".to_string(),
        "k".to_string(),
        "v-alice".to_string(),
        i64::MAX,
    );
    assert_eq!(r.unwrap_err(), AuthError::Conflict);
}

#[test]
fn login_issues_both_tokens_and_opens_a_session() {
    let mut db = Database::new();
    add(&mut db, "alice", "secret1");
    let tokens = login_at(&mut db, &login_input("alice@x.com", "secret1"), NOW + 5).unwrap();
    assert_eq!(tokens.expires_in, 900);
    let access =
        verify_token_at(&tokens.access_token, b"key-alice", TokenKind::Access, NOW + 5).unwrap();
    assert_eq!(access.sub, "u-alice");
    assert_eq!(access.iat, NOW + 5);
    assert_eq!(access.exp, NOW + 5 + 900);
    let refreshing =
        verify_token_at(&tokens.refresh_token, b"key-alice", TokenKind::Refresh, NOW + 5).unwrap();
    assert_eq!(refreshing.sub, "u-alice");
    assert_eq!(refreshing.exp, NOW + 5 + 604_800);
    let session = db.find_session_by_refresh_token(&tokens.refresh_token).unwrap();
    assert_eq!(session.user_id, "u-alice");
    assert_eq!(session.expires_at, NOW + 5 + 604_800);
    assert_eq!(db.select_user_by_id("u-alice").unwrap().last_login, Some(NOW + 5));
    assert_eq!(db.session_count(), 1);
}

#[test]
fn access_token_is_accepted_until_it_expires() {
    let mut db = Database::new();
    add(&mut db, "alice", "secret1");
    add(&mut db, "bob", "hunter22");
    let tokens = login_at(&mut db, &login_input("alice@x.com", "secret1"), NOW).unwrap();
    assert!(verify_at(&db, &tokens.access_token, "alice@x.com", NOW));
    assert!(verify_at(&db, &tokens.access_token, "alice@x.com", NOW + 900));
    assert!(!verify_at(&db, &tokens.access_token, "alice@x.com", NOW + 901));
    assert!(!verify_at(&db, &tokens.access_token, "bob@x.com", NOW));
    assert!(!verify_at(&db, &tokens.access_token, "nobody@x.com", NOW));
    assert!(!verify_at(&db, &tokens.refresh_token, "alice@x.com", NOW));
    assert!(!verify_at(&db, "not-a-token", "alice@x.com", NOW));
    assert!(!verify_at(&db, "", "alice@x.com", NOW));
}

#[test]
fn wrong_password_and_unknown_address_look_the_same() {
    let mut db = Database::new();
    add(&mut db, "alice", "secret1");
    let wrong = login_at(&mut db, &login_input("alice@x.com", "secret2"), NOW).unwrap_err();
    let unknown = login_at(&mut db, &login_input("nobody@x.com", "secret1"), NOW).unwrap_err();
    assert_eq!(wrong, AuthError::Unauthorized);
    assert_eq!(unknown, AuthError::Unauthorized);
    assert_eq!(wrong.message(), unknown.message());
    assert_eq!(wrong.status_code(), 401);
    assert_eq!(db.session_count(), 0);
    assert_eq!(db.select_user_by_id("u-alice").unwrap().last_login, None);
    assert_eq!(
        login(&mut db, &login_input("nobody@x.com", "secret1")).unwrap_err(),
        AuthError::Unauthorized
    );
}

#[test]
fn unreadable_digest_and_missing_secret_are_internal() {
    let mut db = Database::new();
    db.insert_user_with_secret(
        "u1".to_string(),
        "s1".to_string(),
        "k1".to_string(),
        "carol",
        "carol@x.com",
        "not-a-digest",
        NOW,
    )
    .unwrap();
    db.insert_user("u2".to_string(), "dave", "dave@x.com", &cheap_hash("secret1"), NOW).unwrap();
    assert_eq!(
        login_at(&mut db, &login_input("carol@x.com", "whatever"), NOW).unwrap_err(),
        AuthError::Internal
    );
    assert_eq!(
        login_at(&mut db, &login_input("dave@x.com", "secret1"), NOW).unwrap_err(),
        AuthError::Internal
    );
    assert_eq!(
        login_at(&mut db, &login_input("dave@x.com", "secret2"), NOW).unwrap_err(),
        AuthError::Unauthorized
    );
    assert!(!verify_at(&db, "a.b.c", "dave@x.com", NOW));
    assert_eq!(db.session_count(), 0);
}

#[test]
fn login_that_cannot_issue_changes_nothing() {
    let mut db = Database::new();
    add(&mut db, "alice", "secret1");
    let r = login_at(&mut db, &login_input("alice@x.com", "secret1"), i64::MAX - 1_000);
    assert_eq!(r.unwrap_err(), AuthError::Internal);
    assert_eq!(db.session_count(), 0);
    assert_eq!(db.select_user_by_id("u-alice").unwrap().last_login, None);
}

#[test]
fn second_login_closes_the_first_session() {
    let mut db = Database::new();
    add(&mut db, "alice", "secret1");
    let first = login_at(&mut db, &login_input("alice@x.com", "secret1"), NOW).unwrap();
    let second = login_at(&mut db, &login_input("alice@x.com", "secret1"), NOW + 1).unwrap();
    assert_ne!(first.refresh_token, second.refresh_token);
    assert_eq!(db.session_count(), 1);
    assert_eq!(
        refresh_at(&mut db, &first.refresh_token, NOW + 2).unwrap_err(),
        AuthError::Unauthorized
    );
    assert!(refresh_at(&mut db, &second.refresh_token, NOW + 2).is_ok());
}

#[test]
fn verification_is_redeemed_once() {
    let mut db = Database::new();
    add(&mut db, "alice", "secret1");
    assert_eq!(db.select_user_by_id("u-alice").unwrap().status, UserStatus::Unverified);
    let identity = redeem_verification_at(&mut db, "v-alice", NOW + 10).unwrap();
    assert_eq!(identity.id, "u-alice");
    assert_eq!(identity.username, "alice");
    assert_eq!(identity.email, "alice@x.com");
    assert_eq!(db.select_user_by_id("u-alice").unwrap().status, UserStatus::Active);
    let again = redeem_verification_at(&mut db, "v-alice", NOW + 10).unwrap_err();
    assert_eq!(again, AuthError::NotFound);
    assert_eq!(again.status_code(), 404);
    assert_eq!(db.select_user_by_id("u-alice").unwrap().status, UserStatus::Active);
    assert_eq!(redeem_verification(&mut db, "v-alice").unwrap_err(), AuthError::NotFound);
}

#[test]
fn expired_or_unknown_verification_leaves_the_status() {
    let mut db = Database::new();
    add(&mut db, "alice", "secret1");
    assert_eq!(
        redeem_verification_at(&mut db, "v-alice", NOW + 86_401).unwrap_err(),
        AuthError::NotFound
    );
    assert_eq!(
        redeem_verification_at(&mut db, "v-nobody", NOW).unwrap_err(),
        AuthError::NotFound
    );
    assert_eq!(db.select_user_by_id("u-alice").unwrap().status, UserStatus::Unverified);
    assert!(db.has_verification_token("v-alice"));
    assert!(redeem_verification_at(&mut db, "v-alice", NOW + 86_400).is_ok());
    assert_eq!(db.select_user_by_id("u-alice").unwrap().status, UserStatus::Active);
}

#[test]
fn registered_token_is_redeemed_now() {
    let mut db = Database::new();
    let done = register(&mut db, &register_input("alice", "alice@x.com", "secret1")).unwrap();
    let identity = redeem_verification(&mut db, &done.verification.token).unwrap();
    assert_eq!(identity.id, done.identity.id);
    assert_eq!(db.select_user_by_email("alice@x.com").unwrap().status, UserStatus::Active);
    assert_eq!(
        redeem_verification(&mut db, &done.verification.token).unwrap_err(),
        AuthError::NotFound
    );
}

#[test]
fn refresh_rotates_the_refresh_token() {
    let mut db = Database::new();
    add(&mut db, "alice", "secret1");
    let first = login_at(&mut db, &login_input("alice@x.com", "secret1"), NOW).unwrap();
    let second = refresh_at(&mut db, &first.refresh_token, NOW + 60).unwrap();
    assert_eq!(second.expires_in, 900);
    assert_ne!(second.refresh_token, first.refresh_token);
    assert!(verify_at(&db, &second.access_token, "alice@x.com", NOW + 60 + 900));
    assert!(!verify_at(&db, &second.access_token, "alice@x.com", NOW + 60 + 901));
    assert_eq!(
        refresh_at(&mut db, &first.refresh_token, NOW + 61).unwrap_err(),
        AuthError::Unauthorized
    );
    let session = db.find_session_by_refresh_token(&second.refresh_token).unwrap();
    assert_eq!(session.expires_at, NOW + 60 + 604_800);
    assert_eq!(db.session_count(), 1);
}

#[test]
fn refresh_now_after_login_now() {
    let mut db = Database::new();
    add(&mut db, "alice", "secret1");
    let first = login(&mut db, &login_input("alice@x.com", "secret1")).unwrap();
    let second = refresh(&mut db, &first.refresh_token).unwrap();
    assert_eq!(second.expires_in, 900);
    assert!(verify(&db, &second.access_token, "alice@x.com"));
    assert!(db.find_session_by_refresh_token(&second.refresh_token).is_ok());
    assert_eq!(db.session_count(), 1);
    assert_eq!(refresh(&mut db, "unknown").unwrap_err(), AuthError::Unauthorized);
}

#[test]
fn refresh_refusals() {
    let mut db = Database::new();
    add(&mut db, "alice", "secret1");
    let tokens = login_at(&mut db, &login_input("alice@x.com", "secret1"), NOW).unwrap();
    assert_eq!(refresh_at(&mut db, "unknown", NOW).unwrap_err(), AuthError::Unauthorized);
    assert_eq!(
        refresh_at(&mut db, &tokens.access_token, NOW).unwrap_err(),
        AuthError::Unauthorized
    );
    assert_eq!(
        refresh_at(&mut db, &tokens.refresh_token, NOW + 604_801).unwrap_err(),
        AuthError::Unauthorized
    );
    assert!(db.find_session_by_refresh_token(&tokens.refresh_token).is_ok());
    assert!(refresh_at(&mut db, &tokens.refresh_token, NOW + 604_800).is_ok());
}

#[test]
fn logout_closes_the_session() {
    let mut db = Database::new();
    add(&mut db, "alice", "secret1");
    let tokens = login_at(&mut db, &login_input("alice@x.com", "secret1"), NOW).unwrap();
    assert_eq!(logout(&mut db, "unknown").unwrap_err(), AuthError::Unauthorized);
    assert_eq!(logout(&mut db, &tokens.refresh_token), Ok(()));
    assert_eq!(db.session_count(), 0);
    assert_eq!(
        refresh_at(&mut db, &tokens.refresh_token, NOW + 1).unwrap_err(),
        AuthError::Unauthorized
    );
    assert_eq!(logout(&mut db, &tokens.refresh_token).unwrap_err(), AuthError::Unauthorized);
    assert!(verify_at(&db, &tokens.access_token, "alice@x.com", NOW + 1));
}

#[test]
fn status_codes_and_messages() {
    assert_eq!(AuthError::ValidationError.status_code(), 400);
    assert_eq!(AuthError::Conflict.status_code(), 409);
    assert_eq!(AuthError::Unauthorized.status_code(), 401);
    assert_eq!(AuthError::NotFound.status_code(), 404);
    assert_eq!(AuthError::Unavailable.status_code(), 503);
    assert_eq!(AuthError::Internal.status_code(), 500);
    assert_eq!(AuthError::Unauthorized.message(), "Invalid email or password");
    assert_eq!(AuthError::Conflict.message(), "Email already registered");
    assert_eq!(AuthError::ValidationError.message(), "Invalid request");
    assert_eq!(AuthError::NotFound.message(), "Not found");
    assert_eq!(AuthError::Unavailable.message(), "Service unavailable");
    assert_eq!(AuthError::Internal.message(), "Internal error");
}

#[test]
fn store_errors_are_passed_on_by_class() {
    assert_eq!(from_store_error(DatabaseError::Conflict), AuthError::Conflict);
    assert_eq!(from_store_error(DatabaseError::NotFound), AuthError::NotFound);
    assert_eq!(from_store_error(DatabaseError::Expired), AuthError::NotFound);
    assert_eq!(from_store_error(DatabaseError::Unavailable), AuthError::Unavailable);
    assert_eq!(from_store_error(DatabaseError::Internal), AuthError::Internal);
}

#[test]
fn forgotten_password_issues_a_token_to_a_known_address_only() {
    let mut db = Database::new();
    add(&mut db, "alice", "secret1");
    assert!(forgot_password_with(&mut db, "nobody@x.com", "reset-1".to_string(), NOW).is_none());
    assert!(!db.has_password_reset_token("reset-1"));
    let issued = forgot_password_with(&mut db, "alice@x.com", "reset-1".to_string(), NOW).unwrap();
    assert_eq!(issued.token, "reset-1");
    assert_eq!(issued.user_id, "u-alice");
    assert_eq!(issued.expires_at, NOW + 86_400);
    assert!(db.has_password_reset_token("reset-1"));
    assert!(forgot_password_with(&mut db, "alice@x.com", "reset-1".to_string(), NOW).is_none());
    let late = forgot_password_with(&mut db, "alice@x.com", "reset-2".to_string(), i64::MAX);
    assert!(late.is_none());
    assert!(forgot_password(&mut db, "nobody@x.com").is_none());
    let drawn = forgot_password(&mut db, "alice@x.com").unwrap();
    assert_eq!(drawn.user_id, "u-alice");
    assert!(db.has_password_reset_token(&drawn.token));
}

#[test]
fn reset_sets_the_digest_and_leaves_the_status() {
    let mut db = Database::new();
    add(&mut db, "alice", "secret1");
    forgot_password_with(&mut db, "alice@x.com", "reset-1".to_string(), NOW).unwrap();
    let new_hash = cheap_hash("new-secret");
    let identity = reset_password_with(&mut db, "reset-1", &new_hash, NOW + 10).unwrap();
    assert_eq!(identity.id, "u-alice");
    assert_eq!(identity.email, "alice@x.com");
    let user = db.select_user_by_id("u-alice").unwrap();
    assert_eq!(user.password_hash, new_hash);
    assert_eq!(user.status, UserStatus::Unverified);
    assert_eq!(
        login_at(&mut db, &login_input("alice@x.com", "secret1"), NOW + 20).unwrap_err(),
        AuthError::Unauthorized
    );
    assert!(login_at(&mut db, &login_input("alice@x.com", "new-secret"), NOW + 20).is_ok());
    assert_eq!(
        reset_password_with(&mut db, "reset-1", &new_hash, NOW + 10).unwrap_err(),
        AuthError::NotFound
    );
}

#[test]
fn reset_refusals_change_nothing() {
    let mut db = Database::new();
    add(&mut db, "alice", "secret1");
    forgot_password_with(&mut db, "alice@x.com", "reset-1".to_string(), NOW).unwrap();
    let before = db.select_user_by_id("u-alice").unwrap().password_hash;
    assert_eq!(
        reset_password_with(&mut db, "absent", "h", NOW).unwrap_err(),
        AuthError::NotFound
    );
    assert_eq!(
        reset_password_with(&mut db, "reset-1", "h", NOW + 86_401).unwrap_err(),
        AuthError::NotFound
    );
    assert_eq!(reset_password(&mut db, "absent", "new-secret").unwrap_err(), AuthError::NotFound);
    assert_eq!(reset_password(&mut db, "reset-1", "new-secret").unwrap_err(), AuthError::NotFound);
    assert_eq!(db.select_user_by_id("u-alice").unwrap().password_hash, before);
    assert!(db.has_password_reset_token("reset-1"));
    assert!(db.has_verification_token("v-alice"));
}

#[test]
fn reset_now_with_a_fresh_token() {
    let mut db = Database::new();
    add(&mut db, "alice", "secret1");
    let issued = forgot_password(&mut db, "alice@x.com").unwrap();
    let identity = reset_password(&mut db, &issued.token, "new-secret").unwrap();
    assert_eq!(identity.id, "u-alice");
    let user = db.select_user_by_id("u-alice").unwrap();
    assert!(bcrypt::verify("new-secret", &user.password_hash).unwrap());
    assert!(!bcrypt::verify("secret1", &user.password_hash).unwrap());
    assert_eq!(
        reset_password(&mut db, &issued.token, "again-secret").unwrap_err(),
        AuthError::NotFound
    );
}

#[test]
fn malformed_registration_is_refused_before_anything_is_stored() {
    let mut db = Database::new();
    let refused = [
        register_input("al", "alice@x.com", "secret1"),
        register_input(&"a".repeat(51), "alice@x.com", "secret1"),
        register_input("alice", "not-an-address", "secret1"),
        register_input("alice", "alice@x.com", "12345"),
        register_input("alice", "alice@x.com", &"p".repeat(51)),
        register_input("", "", ""),
    ];
    for input in &refused {
        let r = register(&mut db, input).unwrap_err();
        assert_eq!(r, AuthError::ValidationError);
        assert_eq!(r.status_code(), 400);
        let with = register_with(
            &mut db,
            input,
            "h",
            "u1".to_string(),
            "s1".to_string(),
            "k1".to_string(),
            "v1".to_string(),
            NOW,
        );
        assert_eq!(with.unwrap_err(), AuthError::ValidationError);
    }
    assert_eq!((db.user_count(), db.secret_count(), db.verification_token_count()), (0, 0, 0));
}

#[test]
fn format_rules_come_before_the_conflict() {
    let mut db = Database::new();
    add(&mut db, "alice", "secret1");
    assert_eq!(
        register(&mut db, &register_input("al", "alice@x.com", "secret1")).unwrap_err(),
        AuthError::ValidationError
    );
    assert_eq!(
        register(&mut db, &register_input("alice", "alice@x.com", "secret1")).unwrap_err(),
        AuthError::Conflict
    );
}

#[test]
fn malformed_login_is_refused_before_the_store_is_asked() {
    let mut db = Database::new();
    add(&mut db, "alice", "secret1");
    for input in [
        login_input("alice", "secret1"),
        login_input("alice@x.com", "12345"),
        login_input("", ""),
        login_input("alice@x.com", &"p".repeat(51)),
    ] {
        assert_eq!(login_at(&mut db, &input, NOW).unwrap_err(), AuthError::ValidationError);
        assert_eq!(login(&mut db, &input).unwrap_err(), AuthError::ValidationError);
    }
    assert_eq!(db.session_count(), 0);
    assert_eq!(db.select_user_by_id("u-alice").unwrap().last_login, None);
}

#[test]
fn reset_to_a_password_of_the_wrong_length_is_refused() {
    let mut db = Database::new();
    add(&mut db, "alice", "secret1");
    let issued = forgot_password(&mut db, "alice@x.com").unwrap();
    assert_eq!(
        reset_password(&mut db, &issued.token, "12345").unwrap_err(),
        AuthError::ValidationError
    );
    assert_eq!(
        reset_password(&mut db, "absent", "12345").unwrap_err(),
        AuthError::ValidationError
    );
    assert!(db.has_password_reset_token(&issued.token));
    assert!(reset_password(&mut db, &issued.token, "123456").is_ok());
}

#[test]
fn login_now_gives_tokens_of_the_user() {
    let mut db = Database::new();
    add(&mut db, "alice", "secret1");
    let tokens = login(&mut db, &login_input("alice@x.com", "secret1")).unwrap();
    let now = db.select_user_by_id("u-alice").unwrap().last_login.unwrap();
    let access =
        verify_token_at(&tokens.access_token, b"key-alice", TokenKind::Access, now).unwrap();
    let refreshing =
        verify_token_at(&tokens.refresh_token, b"key-alice", TokenKind::Refresh, now).unwrap();
    assert_eq!(access.sub, "u-alice");
    assert_eq!(refreshing.sub, "u-alice");
    assert_eq!((access.iat, access.exp), (now, now + 900));
    assert_eq!((refreshing.iat, refreshing.exp), (now, now + 604_800));
    assert!(!verify(&db, &tokens.refresh_token, "alice@x.com"));
    assert!(!verify_at(&db, &tokens.access_token, "alice@x.com", now + 901));
}
