use authcore::db::database::Database;
use authcore::db::error::DatabaseError;
use authcore::models::users::UserStatus;

fn store_with_alice() -> Database {
    let mut db = Database::new();
    db.insert_user_with_secret(
        "u-alice".to_string(),
        "s-alice".to_string(),
        "key-alice".to_string(),
        "alice",
        "alice@x.com",
        "hash-a",
        1_000,
    )
    .unwrap();
    db
}

#[test]
fn new_store_is_empty() {
    let db = Database::new();
    assert_eq!(db.user_count(), 0);
    assert_eq!(db.secret_count(), 0);
    assert_eq!(db.session_count(), 0);
    assert_eq!(db.verification_token_count(), 0);
    assert_eq!(db.select_user_by_email("alice@x.com").unwrap_err(), DatabaseError::NotFound);
    assert_eq!(db.select_user_by_id("u-alice").unwrap_err(), DatabaseError::NotFound);
    assert_eq!(db.get_secret_for_user("u-alice").unwrap_err(), DatabaseError::NotFound);
    assert_eq!(db.get_secret_by_email("alice@x.com").unwrap_err(), DatabaseError::NotFound);
    assert_eq!(db.find_session_by_refresh_token("r").unwrap_err(), DatabaseError::NotFound);
    assert!(!db.email_taken("alice@x.com"));
}

#[test]
fn inserted_user_is_unverified_and_found_by_both_keys() {
    let mut db = Database::new();
    let user = db.insert_user("u1".to_string(), "alice", "alice@x.com", "hash-a", 42).unwrap();
    assert_eq!(user.id, "u1");
    assert_eq!(user.username, "alice");
    assert_eq!(user.email, "alice@x.com");
    assert_eq!(user.password_hash, "hash-a");
    assert_eq!(user.created_at, 42);
    assert_eq!(user.last_login, None);
    assert_eq!(user.status, UserStatus::Unverified);
    assert_eq!(db.select_user_by_email("alice@x.com").unwrap().id, "u1");
    assert_eq!(db.select_user_by_id("u1").unwrap().email, "alice@x.com");
    assert!(db.email_taken("alice@x.com"));
    assert_eq!(db.user_count(), 1);
    assert_eq!(db.get_secret_for_user("u1").unwrap_err(), DatabaseError::NotFound);
}

#[test]
fn taken_address_is_a_conflict_and_taken_identifier_is_internal() {
    let mut db = Database::new();
    db.insert_user("u1".to_string(), "alice", "alice@x.com", "h", 1).unwrap();
    assert_eq!(
        db.insert_user("u2".to_string(), "other", "alice@x.com", "h", 2).unwrap_err(),
        DatabaseError::Conflict
    );
    assert_eq!(
        db.insert_user("u1".to_string(), "other", "alice@x.com", "h", 2).unwrap_err(),
        DatabaseError::Conflict
    );
    assert_eq!(
        db.insert_user("u1".to_string(), "bob", "bob@x.com", "h", 2).unwrap_err(),
        DatabaseError::Internal
    );
    assert_eq!(db.user_count(), 1);
    assert_eq!(db.select_user_by_email("alice@x.com").unwrap().username, "alice");
}

#[test]
fn addresses_are_compared_exactly() {
    let mut db = Database::new();
    db.insert_user("u1".to_string(), "alice", "alice@x.com", "h", 1).unwrap();
    assert!(db.insert_user("u2".to_string(), "alice", "Alice@x.com", "h", 1).is_ok());
    assert!(db.insert_user("u3".to_string(), "alice", "alice@x.com ", "h", 1).is_ok());
    assert_eq!(db.user_count(), 3);
}

#[test]
fn create_user_draws_an_identifier() {
    let mut db = Database::new();
    let a = db.create_user("alice", "alice@x.com", "h").unwrap();
    let b = db.create_user("bob", "bob@x.com", "h").unwrap();
    assert!(!a.id.is_empty());
    assert_ne!(a.id, b.id);
    assert_eq!(a.status, UserStatus::Unverified);
    assert_eq!(a.last_login, None);
    assert!(a.created_at > 1_600_000_000);
    assert_eq!(db.create_user("x", "alice@x.com", "h").unwrap_err(), DatabaseError::Conflict);
    assert_eq!(db.user_count(), 2);
}

#[test]
fn user_and_secret_are_added_together() {
    let db = store_with_alice();
    assert_eq!(db.user_count(), 1);
    assert_eq!(db.secret_count(), 1);
    let secret = db.get_secret_for_user("u-alice").unwrap();
    assert_eq!(secret.id, "s-alice");
    assert_eq!(secret.user_id, "u-alice");
    assert_eq!(secret.key_material, "key-alice");
    assert_eq!(db.get_secret_by_email("alice@x.com").unwrap().key_material, "key-alice");
}

#[test]
fn refused_pair_leaves_neither_user_nor_secret() {
    let mut db = store_with_alice();
    assert_eq!(
        db.insert_user_with_secret(
            "u-2".to_string(),
            "s-2".to_string(),
            "k".to_string(),
            "alice2",
            "alice@x.com",
            "h",
            5
        )
        .unwrap_err(),
        DatabaseError::Conflict
    );
    assert_eq!(
        db.insert_user_with_secret(
            "u-alice".to_string(),
            "s-2".to_string(),
            "k".to_string(),
            "bob",
            "bob@x.com",
            "h",
            5
        )
        .unwrap_err(),
        DatabaseError::Internal
    );
    assert_eq!(
        db.insert_user_with_secret(
            "u-2".to_string(),
            "s-alice".to_string(),
            "k".to_string(),
            "bob",
            "bob@x.com",
            "h",
            5
        )
        .unwrap_err(),
        DatabaseError::Internal
    );
    assert_eq!(db.user_count(), 1);
    assert_eq!(db.secret_count(), 1);
    assert!(!db.email_taken("bob@x.com"));
    assert_eq!(db.select_user_by_id("u-2").unwrap_err(), DatabaseError::NotFound);
}

#[test]
fn create_user_with_secret_draws_distinct_keys() {
    let mut db = Database::new();
    let (alice, alice_secret) = db.create_user_with_secret("alice", "alice@x.com", "h").unwrap();
    let (bob, bob_secret) = db.create_user_with_secret("bob", "bob@x.com", "h").unwrap();
    assert_eq!(alice_secret.user_id, alice.id);
    assert_eq!(bob_secret.user_id, bob.id);
    assert_ne!(alice_secret.key_material, bob_secret.key_material);
    assert_ne!(alice_secret.id, bob_secret.id);
    assert!(!alice_secret.key_material.is_empty());
    assert_eq!(
        db.create_user_with_secret("carol", "bob@x.com", "h").unwrap_err(),
        DatabaseError::Conflict
    );
    assert_eq!(db.user_count(), 2);
    assert_eq!(db.secret_count(), 2);
}

#[test]
fn a_user_has_at_most_one_secret() {
    let mut db = Database::new();
    db.insert_user("u1".to_string(), "alice", "alice@x.com", "h", 1).unwrap();
    assert_eq!(db.add_secret("nobody", "k").unwrap_err(), DatabaseError::NotFound);
    let record = db.add_secret("u1", "k1").unwrap();
    assert!(!record.id.is_empty());
    assert_eq!(db.get_secret_for_user("u1").unwrap().id, record.id);
    assert_eq!(db.get_secret_for_user("u1").unwrap().key_material, "k1");
    assert_eq!(db.add_secret("u1", "k2").unwrap_err(), DatabaseError::Conflict);
    assert_eq!(db.get_secret_for_user("u1").unwrap().key_material, "k1");
    assert_eq!(db.secret_count(), 1);
}

#[test]
fn insert_secret_order_of_refusals() {
    let mut db = store_with_alice();
    db.insert_user("u-bob".to_string(), "bob", "bob@x.com", "h", 1).unwrap();
    assert_eq!(
        db.insert_secret("s-alice".to_string(), "nobody", "k").unwrap_err(),
        DatabaseError::NotFound
    );
    assert_eq!(
        db.insert_secret("s-alice".to_string(), "u-alice", "k").unwrap_err(),
        DatabaseError::Conflict
    );
    assert_eq!(
        db.insert_secret("s-alice".to_string(), "u-bob", "k").unwrap_err(),
        DatabaseError::Internal
    );
    assert_eq!(db.insert_secret("s-bob".to_string(), "u-bob", "k").unwrap().id, "s-bob");
}

#[test]
fn verification_token_expires_one_day_after_issue() {
    let mut db = store_with_alice();
    let token = db.issue_verification_token("tok".to_string(), "u-alice", 1_000).unwrap();
    assert_eq!(token.token, "tok");
    assert_eq!(token.user_id, "u-alice");
    assert_eq!(token.expires_at, 1_000 + 86_400);
    assert!(db.has_verification_token("tok"));
    assert_eq!(db.verification_token_count(), 1);
}

#[test]
fn verification_token_refusals() {
    let mut db = store_with_alice();
    assert_eq!(
        db.issue_verification_token("tok".to_string(), "nobody", 0).unwrap_err(),
        DatabaseError::NotFound
    );
    db.issue_verification_token("tok".to_string(), "u-alice", 0).unwrap();
    assert_eq!(
        db.issue_verification_token("tok".to_string(), "u-alice", 0).unwrap_err(),
        DatabaseError::Conflict
    );
    assert_eq!(
        db.issue_verification_token("tok2".to_string(), "u-alice", i64::MAX - 86_399)
            .unwrap_err(),
        DatabaseError::Internal
    );
    assert!(db.issue_verification_token("tok2".to_string(), "u-alice", i64::MAX - 86_400).is_ok());
    assert_eq!(db.verification_token_count(), 2);
}

#[test]
fn verification_token_is_redeemed_once() {
    let mut db = store_with_alice();
    db.issue_verification_token("tok".to_string(), "u-alice", 1_000).unwrap();
    let user = db.redeem_verification_token_at("tok", 2_000).unwrap();
    assert_eq!(user.id, "u-alice");
    assert_eq!(user.status, UserStatus::Unverified);
    assert!(!db.has_verification_token("tok"));
    assert_eq!(
        db.redeem_verification_token_at("tok", 2_000).unwrap_err(),
        DatabaseError::NotFound
    );
    assert_eq!(db.redeem_verification_token_at("tok", 0).unwrap_err(), DatabaseError::NotFound);
}

#[test]
fn expired_verification_token_is_refused_and_kept() {
    let mut db = store_with_alice();
    db.issue_verification_token("tok".to_string(), "u-alice", 1_000).unwrap();
    assert_eq!(
        db.redeem_verification_token_at("tok", 1_000 + 86_401).unwrap_err(),
        DatabaseError::Expired
    );
    assert!(db.has_verification_token("tok"));
    assert!(db.redeem_verification_token_at("tok", 1_000 + 86_400).is_ok());
}

#[test]
fn unknown_verification_token_is_not_found() {
    let mut db = store_with_alice();
    db.issue_verification_token("tok".to_string(), "u-alice", 1_000).unwrap();
    assert_eq!(db.redeem_verification_token_at("other", 0).unwrap_err(), DatabaseError::NotFound);
    assert_eq!(db.redeem_verification_token("other").unwrap_err(), DatabaseError::NotFound);
    assert!(db.has_verification_token("tok"));
}

#[test]
fn drawn_verification_token_can_be_redeemed_now() {
    let mut db = store_with_alice();
    assert_eq!(db.create_verification_token("nobody").unwrap_err(), DatabaseError::NotFound);
    let first = db.create_verification_token("u-alice").unwrap();
    let second = db.create_verification_token("u-alice").unwrap();
    assert_ne!(first.token, second.token);
    assert_eq!(first.user_id, "u-alice");
    assert_eq!(db.redeem_verification_token(&first.token).unwrap().id, "u-alice");
    assert_eq!(
        db.redeem_verification_token(&first.token).unwrap_err(),
        DatabaseError::NotFound
    );
    assert!(db.has_verification_token(&second.token));
}

#[test]
fn password_reset_tokens_have_a_table_of_their_own() {
    let mut db = store_with_alice();
    db.issue_verification_token("tok".to_string(), "u-alice", 1_000).unwrap();
    let reset = db.issue_password_reset_token("tok".to_string(), "u-alice", 5_000).unwrap();
    assert_eq!(reset.expires_at, 5_000 + 86_400);
    assert_eq!(
        db.issue_password_reset_token("tok".to_string(), "u-alice", 5_000).unwrap_err(),
        DatabaseError::Conflict
    );
    assert_eq!(db.redeem_password_reset_token_at("tok", 5_000).unwrap().id, "u-alice");
    assert_eq!(
        db.redeem_password_reset_token_at("tok", 5_000).unwrap_err(),
        DatabaseError::NotFound
    );
    assert!(db.has_verification_token("tok"));
    assert!(db.redeem_verification_token_at("tok", 1_000).is_ok());
}

#[test]
fn password_reset_token_refusals() {
    let mut db = store_with_alice();
    assert_eq!(db.create_password_reset_token("nobody").unwrap_err(), DatabaseError::NotFound);
    let reset = db.create_password_reset_token("u-alice").unwrap();
    assert_eq!(db.redeem_password_reset_token("absent").unwrap_err(), DatabaseError::NotFound);
    assert_eq!(db.redeem_password_reset_token(&reset.token).unwrap().email, "alice@x.com");
    db.issue_password_reset_token("old".to_string(), "u-alice", 0).unwrap();
    assert_eq!(
        db.redeem_password_reset_token_at("old", 86_401).unwrap_err(),
        DatabaseError::Expired
    );
    assert_eq!(db.redeem_password_reset_token("old").unwrap_err(), DatabaseError::Expired);
}

#[test]
fn a_new_session_takes_the_place_of_the_old() {
    let mut db = store_with_alice();
    assert_eq!(db.create_session("nobody", "r0", 10).unwrap_err(), DatabaseError::NotFound);
    let first = db.create_session("u-alice", "r1", 10).unwrap();
    assert_eq!(first.user_id, "u-alice");
    assert_eq!(first.refresh_token, "r1");
    assert_eq!(first.expires_at, 10);
    assert_eq!(db.find_session_by_refresh_token("r1").unwrap().expires_at, 10);
    db.create_session("u-alice", "r2", 20).unwrap();
    assert_eq!(db.find_session_by_refresh_token("r1").unwrap_err(), DatabaseError::NotFound);
    assert_eq!(db.find_session_by_refresh_token("r2").unwrap().expires_at, 20);
    assert_eq!(db.session_count(), 1);
    db.create_session("u-alice", "r2", 30).unwrap();
    assert_eq!(db.find_session_by_refresh_token("r2").unwrap().expires_at, 30);
    assert_eq!(db.session_count(), 1);
}

#[test]
fn a_refresh_token_serves_one_user() {
    let mut db = store_with_alice();
    db.insert_user("u-bob".to_string(), "bob", "bob@x.com", "h", 1).unwrap();
    db.create_session("u-alice", "r1", 10).unwrap();
    assert_eq!(db.create_session("u-bob", "r1", 10).unwrap_err(), DatabaseError::Conflict);
    assert_eq!(db.find_session_by_refresh_token("r1").unwrap().user_id, "u-alice");
    db.create_session("u-bob", "r2", 10).unwrap();
    assert_eq!(db.session_count(), 2);
    assert_eq!(db.create_session("u-bob", "r1", 10).unwrap_err(), DatabaseError::Conflict);
    assert_eq!(db.find_session_by_refresh_token("r2").unwrap().user_id, "u-bob");
}

#[test]
fn revoked_session_is_gone() {
    let mut db = store_with_alice();
    db.create_session("u-alice", "r1", 10).unwrap();
    assert!(!db.revoke_session("other"));
    assert_eq!(db.session_count(), 1);
    assert!(db.revoke_session("r1"));
    assert_eq!(db.find_session_by_refresh_token("r1").unwrap_err(), DatabaseError::NotFound);
    assert!(!db.revoke_session("r1"));
    assert_eq!(db.session_count(), 0);
}

#[test]
fn activation_changes_the_status_only() {
    let mut db = store_with_alice();
    assert_eq!(db.activate_user("nobody").unwrap_err(), DatabaseError::NotFound);
    let user = db.activate_user("u-alice").unwrap();
    assert_eq!(user.status, UserStatus::Active);
    let stored = db.select_user_by_email("alice@x.com").unwrap();
    assert_eq!(stored.status, UserStatus::Active);
    assert_eq!(stored.id, "u-alice");
    assert_eq!(stored.username, "alice");
    assert_eq!(stored.password_hash, "hash-a");
    assert_eq!(stored.created_at, 1_000);
    assert_eq!(stored.last_login, None);
    assert_eq!(db.activate_user("u-alice").unwrap().status, UserStatus::Active);
    assert_eq!(db.get_secret_for_user("u-alice").unwrap().key_material, "key-alice");
}

#[test]
fn login_time_is_noted() {
    let mut db = store_with_alice();
    assert_eq!(db.record_login("nobody", 7).unwrap_err(), DatabaseError::NotFound);
    assert_eq!(db.record_login("u-alice", 7).unwrap().last_login, Some(7));
    assert_eq!(db.select_user_by_id("u-alice").unwrap().last_login, Some(7));
    assert_eq!(db.record_login("u-alice", 9).unwrap().last_login, Some(9));
    assert_eq!(db.select_user_by_id("u-alice").unwrap().status, UserStatus::Unverified);
}

#[test]
fn read_paths_do_not_change_the_user() {
    let db = store_with_alice();
    let before = db.select_user_by_email("alice@x.com").unwrap();
    let _ = db.get_secret_by_email("alice@x.com").unwrap();
    let _ = db.select_user_by_id("u-alice").unwrap();
    let after = db.select_user_by_email("alice@x.com").unwrap();
    assert_eq!(before.last_login, after.last_login);
    assert_eq!(before.status, after.status);
}

#[test]
fn store_error_messages_and_status_labels() {
    assert_eq!(DatabaseError::Conflict.message(), "Record already exists");
    assert_eq!(DatabaseError::NotFound.message(), "Record not found");
    assert_eq!(DatabaseError::Expired.message(), "Record has expired");
    assert_eq!(DatabaseError::Unavailable.message(), "Store is unavailable");
    assert_eq!(DatabaseError::Internal.message(), "Internal store error");
    assert_eq!(UserStatus::Unverified.label(), "unverified");
    assert_eq!(UserStatus::Active.label(), "active");
}

#[test]
fn password_digest_is_replaced() {
    let mut db = store_with_alice();
    assert_eq!(db.set_password_hash("nobody", "h2").unwrap_err(), DatabaseError::NotFound);
    let user = db.set_password_hash("u-alice", "h2").unwrap();
    assert_eq!(user.password_hash, "h2");
    let stored = db.select_user_by_email("alice@x.com").unwrap();
    assert_eq!(stored.password_hash, "h2");
    assert_eq!(stored.username, "alice");
    assert_eq!(stored.status, UserStatus::Unverified);
    assert_eq!(stored.created_at, 1_000);
}

#[test]
fn first_records_are_always_created() {
    for _ in 0..20 {
        let mut db = Database::new();
        let user = db.create_user("alice", "alice@x.com", "h").unwrap();
        let record = db.add_secret(&user.id, "k").unwrap();
        assert_eq!(db.get_secret_for_user(&user.id).unwrap().id, record.id);
        let token = db.create_verification_token(&user.id).unwrap();
        assert!(token.expires_at - 86_400 >= 0);
        assert!(db.create_password_reset_token(&user.id).is_ok());
        let mut other = Database::new();
        let (u, s) = other.create_user_with_secret("bob", "bob@x.com", "h").unwrap();
        assert_eq!(s.user_id, u.id);
        assert!(u.created_at >= 0);
    }
}
