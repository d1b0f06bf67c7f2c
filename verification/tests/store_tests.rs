//! The stores: key constraints, single-slot token semantics, destructive
//! consumption, sweeps and the account cascade.

use authcore::codec;
use authcore::db::DBHandle;
use authcore::db::StoreError;
use authcore::db::UserLogin;
use authcore::db::UserRole;
use authcore::db::UserSession;

fn plain_user(username: &str, email: &str) -> UserLogin {
    UserLogin {
        user_id: 0,
        username: username.to_string(),
        email: email.to_string(),
        password: None,
        email_verified: false,
        email_verified_at: None,
        role: UserRole::User,
        password_reset: false,
        deleted_at: None,
    }
}

#[test]
fn new_user_assigns_sequential_ids() {
    let mut db = DBHandle::new(true);
    let a = db.user_login_table.new_user(&plain_user("a", "a@x.com")).unwrap();
    let b = db.user_login_table.new_user(&plain_user("b", "b@x.com")).unwrap();
    assert_eq!(a, 1);
    assert_eq!(b, 2);
    assert_eq!(db.user_login_table.len(), 2);
}

#[test]
fn duplicate_username_is_refused() {
    let mut db = DBHandle::new(true);
    db.user_login_table.new_user(&plain_user("bob", "bob@x.com")).unwrap();
    let second = db.user_login_table.new_user(&plain_user("bob", "other@x.com"));
    assert_eq!(second, Err(StoreError::UsernameTaken));
    assert_eq!(db.user_login_table.len(), 1);
}

#[test]
fn duplicate_email_is_refused() {
    let mut db = DBHandle::new(true);
    db.user_login_table.new_user(&plain_user("bob", "bob@x.com")).unwrap();
    let second = db.user_login_table.new_user(&plain_user("carol", "bob@x.com"));
    assert_eq!(second, Err(StoreError::EmailTaken));
}

#[test]
fn lookup_by_each_key() {
    let mut db = DBHandle::new(true);
    let id = db.user_login_table.new_user(&plain_user("dave", "dave@x.com")).unwrap();
    assert_eq!(db.user_login_table.get_by_username("dave").unwrap().user_id, id);
    assert_eq!(db.user_login_table.get_by_email("dave@x.com").unwrap().username, "dave");
    assert_eq!(db.user_login_table.get_by_user_id(id).unwrap().email, "dave@x.com");
    assert_eq!(db.user_login_table.get_user_id_by_username("dave"), Ok(id));
    assert!(matches!(db.user_login_table.get_by_username("nobody"), Err(StoreError::NotFound)));
    assert!(!db.user_login_table.is_username_free("dave"));
    assert!(db.user_login_table.is_username_free("eve"));
    assert!(!db.user_login_table.is_email_free("dave@x.com"));
}

#[test]
fn password_not_set_is_its_own_error() {
    let mut db = DBHandle::new(true);
    db.user_login_table.new_user(&plain_user("erin", "erin@x.com")).unwrap();
    assert_eq!(
        db.user_login_table.is_password_correct("erin", "whatever"),
        Err(StoreError::PasswordNotSet)
    );
    db.user_login_table.set_password("erin", "S3cret!pw").unwrap();
    assert_eq!(db.user_login_table.is_password_correct("erin", "S3cret!pw"), Ok(true));
    assert_eq!(db.user_login_table.is_password_correct("erin", "nope"), Ok(false));
    db.user_login_table.reset_password("erin");
    assert_eq!(
        db.user_login_table.is_password_correct("erin", "S3cret!pw"),
        Err(StoreError::PasswordNotSet)
    );
}

#[test]
fn set_email_and_change_username_respect_uniqueness() {
    let mut db = DBHandle::new(true);
    db.user_login_table.new_user(&plain_user("frank", "frank@x.com")).unwrap();
    db.user_login_table.new_user(&plain_user("grace", "grace@x.com")).unwrap();
    assert_eq!(
        db.user_login_table.set_email("frank", "grace@x.com"),
        Err(StoreError::EmailTaken)
    );
    assert_eq!(db.user_login_table.set_email("frank", "newfrank@x.com"), Ok(()));
    assert_eq!(db.user_login_table.get_by_username("frank").unwrap().email, "newfrank@x.com");
    assert_eq!(
        db.user_login_table.change_username("frank", "grace"),
        Err(StoreError::UsernameTaken)
    );
    assert_eq!(db.user_login_table.change_username("frank", "franklin"), Ok(()));
    assert!(db.user_login_table.is_username_free("frank"));
    assert!(!db.user_login_table.is_username_free("franklin"));
}

#[test]
fn session_insert_lookup_and_revoke_idempotent() {
    let mut db = DBHandle::new(true);
    let token = "raw-session-token";
    let hash = codec::hash_token(token);
    let session = UserSession {
        user_id: 7,
        session_id: "display".to_string(),
        session_hash: hash.clone(),
        session_expiry: 1000,
        session_created_at: 500,
    };
    db.user_sessions_table.insert(&session).unwrap();
    assert_eq!(db.user_sessions_table.get_by_hash(&hash).unwrap().user_id, 7);
    // the same hash cannot be stored twice
    assert_eq!(db.user_sessions_table.insert(&session), Err(StoreError::Internal));
    // revoke once, then again: same result, no error
    db.user_sessions_table.delete_by_hash(&hash);
    assert!(matches!(db.user_sessions_table.get_by_hash(&hash), Err(StoreError::NotFound)));
    db.user_sessions_table.delete_by_hash(&hash);
    assert_eq!(db.user_sessions_table.len(), 0);
}

#[test]
fn lookup_never_accepts_an_expired_session() {
    let mut db = DBHandle::new(true);
    let (token, session) = db.user_sessions_table.issue(4, 100, 50).unwrap();
    assert_eq!(session.session_expiry, 150);
    assert_eq!(db.user_sessions_table.lookup(&token, 100).unwrap().user_id, 4);
    // inclusive up to the expiry instant
    assert_eq!(db.user_sessions_table.lookup(&token, 150).unwrap().user_id, 4);
    // dead one instant later, and forever after
    assert!(matches!(db.user_sessions_table.lookup(&token, 151), Err(StoreError::NotFound)));
    assert!(matches!(db.user_sessions_table.lookup(&token, i64::MAX), Err(StoreError::NotFound)));
    // a dead session answers exactly like a missing one
    assert!(matches!(db.user_sessions_table.lookup("unknown", 100), Err(StoreError::NotFound)));
}

#[test]
fn session_sweep_deletes_exactly_the_expired() {
    let mut db = DBHandle::new(true);
    for (i, expiry) in [(1i64, 50i64), (2, 150), (3, 99)] {
        let session = UserSession {
            user_id: i,
            session_id: format!("s{}", i),
            session_hash: codec::hash_token(&format!("tok{}", i)),
            session_expiry: expiry,
            session_created_at: 0,
        };
        db.user_sessions_table.insert(&session).unwrap();
    }
    db.user_sessions_table.cleanup_expired_sessions(100);
    assert_eq!(db.user_sessions_table.len(), 1);
    let hash2 = codec::hash_token("tok2");
    assert_eq!(db.user_sessions_table.get_by_hash(&hash2).unwrap().user_id, 2);
}

#[test]
fn consume_is_at_most_once() {
    let mut db = DBHandle::new(true);
    let token = db.email_verification_tokens_table.issue(5, 0, 100).unwrap();
    assert_eq!(db.email_verification_tokens_table.consume(&token, 50), Ok(5));
    assert_eq!(
        db.email_verification_tokens_table.consume(&token, 50),
        Err(StoreError::NotFound)
    );
}

#[test]
fn expired_token_consumes_like_a_missing_one() {
    let mut db = DBHandle::new(true);
    let token = db.password_reset_tokens_table.issue(5, 0, 100).unwrap();
    // expiry is inclusive: still alive exactly at the boundary
    assert_eq!(db.password_reset_tokens_table.consume("bogus", 50), Err(StoreError::NotFound));
    assert_eq!(db.password_reset_tokens_table.consume(&token, 101), Err(StoreError::NotFound));
    // the expired row is still there, and still consumable before its end
    assert_eq!(db.password_reset_tokens_table.consume(&token, 100), Ok(5));
}

#[test]
fn issuing_again_invalidates_the_prior_token() {
    let mut db = DBHandle::new(true);
    let first = db.email_verification_tokens_table.issue(9, 0, 1000).unwrap();
    let second = db.email_verification_tokens_table.issue(9, 10, 1000).unwrap();
    assert_ne!(first, second);
    assert_eq!(db.email_verification_tokens_table.len(), 1);
    assert_eq!(
        db.email_verification_tokens_table.consume(&first, 20),
        Err(StoreError::NotFound)
    );
    assert_eq!(db.email_verification_tokens_table.consume(&second, 20), Ok(9));
}

#[test]
fn verification_sweep_cascades_only_onto_unverified_accounts() {
    let mut db = DBHandle::new(true);
    let stale = db.user_login_table.new_user(&plain_user("stale", "stale@x.com")).unwrap();
    let done = db.user_login_table.new_user(&plain_user("done", "done@x.com")).unwrap();
    db.email_verification_tokens_table.issue(stale, 0, 10).unwrap();
    db.email_verification_tokens_table.issue(done, 0, 10).unwrap();
    // `done` verified in time, but its token row somehow lingers
    db.user_login_table.mark_email_verified(done, 5);
    // both purge candidates carry dependent rows the cascade must sort out
    db.user_data_table.insert(stale).unwrap();
    db.user_data_table.insert(done).unwrap();
    db.password_reset_tokens_table.issue(stale, 0, 100000).unwrap();
    let purged = authcore::cleanup::cleanup_tick(&mut db, 100);
    assert_eq!(purged, vec![stale]);
    assert_eq!(db.email_verification_tokens_table.len(), 0);
    assert_eq!(db.user_login_table.len(), 1);
    assert_eq!(db.user_login_table.get_by_user_id(done).unwrap().username, "done");
    assert!(matches!(db.user_login_table.get_by_user_id(stale), Err(StoreError::NotFound)));
    // the cascade took the purged account's dependents, and only those
    assert!(matches!(db.user_data_table.get_by_user_id(stale), Err(StoreError::NotFound)));
    assert!(db.user_data_table.get_by_user_id(done).is_ok());
    assert_eq!(db.password_reset_tokens_table.len(), 0);
}

#[test]
fn cascade_delete_takes_sessions_tokens_and_data() {
    let mut db = DBHandle::new(true);
    let id = db.user_login_table.new_user(&plain_user("henry", "henry@x.com")).unwrap();
    db.user_data_table.insert(id).unwrap();
    db.email_verification_tokens_table.issue(id, 0, 100).unwrap();
    db.password_reset_tokens_table.issue(id, 0, 100).unwrap();
    let session = UserSession {
        user_id: id,
        session_id: "s".to_string(),
        session_hash: codec::hash_token("henry-tok"),
        session_expiry: 100,
        session_created_at: 0,
    };
    db.user_sessions_table.insert(&session).unwrap();
    db.delete_user_cascade("henry");
    assert_eq!(db.user_login_table.len(), 0);
    assert_eq!(db.user_sessions_table.len(), 0);
    assert_eq!(db.email_verification_tokens_table.len(), 0);
    assert_eq!(db.password_reset_tokens_table.len(), 0);
    assert_eq!(db.user_data_table.len(), 0);
}

#[test]
fn sweep_kills_a_purged_accounts_live_reset_token() {
    // a reset token that outlives its unverified owner must not survive the
    // sweep: otherwise it could still complete a password reset for an
    // account that no longer exists
    let mut db = DBHandle::new(true);
    let limbo = db.user_login_table.new_user(&plain_user("limbo", "limbo@x.com")).unwrap();
    db.email_verification_tokens_table.issue(limbo, 0, 10).unwrap();
    let reset = db.password_reset_tokens_table.issue(limbo, 0, 100000).unwrap();
    let purged = authcore::cleanup::cleanup_tick(&mut db, 100);
    assert_eq!(purged, vec![limbo]);
    assert_eq!(
        db.password_reset_tokens_table.consume(&reset, 100),
        Err(StoreError::NotFound)
    );
}

#[test]
fn user_data_counter_lifecycle() {
    let mut db = DBHandle::new(true);
    db.user_data_table.insert(3).unwrap();
    assert_eq!(db.user_data_table.insert(3), Err(StoreError::Internal));
    assert_eq!(db.user_data_table.get_counter(3), Ok(0));
    db.user_data_table.update_counter(3, 41);
    assert_eq!(db.user_data_table.get_counter(3), Ok(41));
    assert_eq!(db.user_data_table.get_by_user_id(3).unwrap().counter, 41);
    assert_eq!(db.user_data_table.get_counter(4), Err(StoreError::NotFound));
}
