//! The request flows end to end: registration with its verification token,
//! login and the gates, password reset, session refresh rotation, logout
//! and the counter endpoints.

use authcore::api::authenticate;
use authcore::api::authenticate_admin;
use authcore::api::complete_password_reset;
use authcore::api::health_check;
use authcore::api::get_counter;
use authcore::api::login_user;
use authcore::api::logout_user;
use authcore::api::refresh_session;
use authcore::api::register_user;
use authcore::api::request_password_reset;
use authcore::api::set_counter;
use authcore::api::verify_email;
use authcore::api::AdminRejection;
use authcore::api::SameSite;
use authcore::api::admin;
use authcore::api::auth_check;
use authcore::api_types::AuthError;
use authcore::api_types::CompletePasswordResetError;
use authcore::api_types::EmailVerificationRequest;
use authcore::api_types::FieldType;
use authcore::api_types::LoginError;
use authcore::api_types::LoginRequest;
use authcore::api_types::PasswordResetCompleteRequest;
use authcore::api_types::PasswordResetRequest;
use authcore::api_types::RegisterError;
use authcore::api_types::RegistrationRequest;
use authcore::api_types::SetCounterRequest;
use authcore::api_types::SuccessCode;
use authcore::api_types::UpdateUserRoleRequest;
use authcore::api_types::ValidationErrorCode;
use authcore::api_types::ValidationFieldError;
use authcore::db::DBHandle;
use authcore::db::UserRole;

const HOUR: i64 = 3600;
const WEEK: i64 = 7 * 24 * 3600;

fn ok_check(field: FieldType) -> ValidationFieldError {
    ValidationFieldError::new(field)
}

fn bad_check(field: FieldType, code: ValidationErrorCode) -> ValidationFieldError {
    let mut check = ValidationFieldError::new(field);
    check.add_error(code);
    check
}

fn reg_request(username: &str, email: &str, password: &str) -> RegistrationRequest {
    RegistrationRequest {
        username: username.to_string(),
        email: email.to_string(),
        password: password.to_string(),
    }
}

/// Registers an account at `now` and returns its pending registration.
fn register_ok(db: &mut DBHandle, username: &str, email: &str, password: &str, now: i64)
    -> authcore::api::PendingRegistration
{
    register_user(
        db,
        &reg_request(username, email, password),
        ok_check(FieldType::Username),
        ok_check(FieldType::Email),
        ok_check(FieldType::Password),
        now,
        2 * HOUR,
    )
    .unwrap()
}

fn login_request(username: &str, password: &str) -> LoginRequest {
    LoginRequest { username: username.to_string(), password: password.to_string() }
}

#[test]
fn register_creates_unverified_account_with_data_row() {
    let mut db = DBHandle::new(true);
    let pending = register_ok(&mut db, "alice", "alice@x.com", "P@ssw0rd1", 1000);
    assert_eq!(pending.user_id, 1);
    assert_eq!(pending.username, "alice");
    assert_eq!(pending.email, "alice@x.com");
    assert_eq!(pending.verification_token.len(), 64);
    let row = db.user_login_table.get_by_username("alice").unwrap();
    assert!(!row.email_verified);
    assert_eq!(row.role, UserRole::User);
    assert_eq!(db.user_data_table.get_counter(pending.user_id), Ok(0));
    assert_eq!(db.email_verification_tokens_table.len(), 1);
}

#[test]
fn register_verify_consume_twice() {
    // Scenario: register, verify with the issued token, then present the
    // same token again: the first consume verifies the account, the second
    // finds nothing.
    let mut db = DBHandle::new(true);
    let pending = register_ok(&mut db, "alice", "alice@x.com", "P@ssw0rd1", 1000);
    let req = EmailVerificationRequest { token: pending.verification_token.clone() };
    assert!(verify_email(&mut db, &req, 1000 + HOUR).is_ok());
    assert!(db.user_login_table.get_by_username("alice").unwrap().email_verified);
    assert_eq!(db.email_verification_tokens_table.len(), 0);
    let again = verify_email(&mut db, &req, 1000 + HOUR);
    assert!(matches!(again, Err(e) if e.error == authcore::api_types::VerifyEmailError::InvalidToken));
}

#[test]
fn verify_email_rejects_empty_expired_and_bogus_tokens() {
    let mut db = DBHandle::new(true);
    let pending = register_ok(&mut db, "bob", "bob@x.com", "P@ssw0rd1", 0);
    let empty = EmailVerificationRequest { token: String::new() };
    assert!(verify_email(&mut db, &empty, 10).is_err());
    let bogus = EmailVerificationRequest { token: "f".repeat(64) };
    assert!(verify_email(&mut db, &bogus, 10).is_err());
    // past the two-hour validity the real token is refused the same way
    let late = EmailVerificationRequest { token: pending.verification_token };
    let r = verify_email(&mut db, &late, 3 * HOUR);
    assert!(matches!(r, Err(e) if e.error == authcore::api_types::VerifyEmailError::InvalidToken));
    assert!(!db.user_login_table.get_by_username("bob").unwrap().email_verified);
}

#[test]
fn registration_validation_and_conflicts() {
    let mut db = DBHandle::new(true);
    let r = register_user(
        &mut db,
        &reg_request("x", "x@x.com", "weak"),
        bad_check(FieldType::Username, ValidationErrorCode::TooShort),
        ok_check(FieldType::Email),
        bad_check(FieldType::Password, ValidationErrorCode::TooFewDigits),
        0,
        2 * HOUR,
    );
    match r {
        Err(e) => {
            assert_eq!(e.error, RegisterError::Validation);
            let v = e.validation.unwrap();
            assert_eq!(v.field_errors.len(), 2);
            assert_eq!(v.field_errors[0].field, FieldType::Username);
            assert_eq!(v.field_errors[1].field, FieldType::Password);
        },
        Ok(_) => panic!("validation must fail"),
    }
    assert_eq!(db.user_login_table.len(), 0);

    register_ok(&mut db, "bob", "bob@x.com", "P@ssw0rd1", 0);
    let taken = register_user(
        &mut db,
        &reg_request("bob", "new@x.com", "P@ssw0rd1"),
        ok_check(FieldType::Username),
        ok_check(FieldType::Email),
        ok_check(FieldType::Password),
        0,
        2 * HOUR,
    );
    assert!(matches!(taken, Err(e) if e.error == RegisterError::UsernameTaken));
    let email_taken = register_user(
        &mut db,
        &reg_request("carol", "bob@x.com", "P@ssw0rd1"),
        ok_check(FieldType::Username),
        ok_check(FieldType::Email),
        ok_check(FieldType::Password),
        0,
        2 * HOUR,
    );
    assert!(matches!(email_taken, Err(e) if e.error == RegisterError::EmailTaken));
    assert_eq!(db.user_login_table.len(), 1);
}

#[test]
fn two_creates_same_username_one_succeeds() {
    // Scenario: two registrations race for "bob"; played sequentially
    // against the store whose uniqueness constraint is the real guard,
    // exactly one succeeds and the loser sees UsernameTaken.
    let mut db = DBHandle::new(true);
    let first = register_user(
        &mut db,
        &reg_request("bob", "bob1@x.com", "P@ssw0rd1"),
        ok_check(FieldType::Username),
        ok_check(FieldType::Email),
        ok_check(FieldType::Password),
        0,
        2 * HOUR,
    );
    let second = register_user(
        &mut db,
        &reg_request("bob", "bob2@x.com", "P@ssw0rd1"),
        ok_check(FieldType::Username),
        ok_check(FieldType::Email),
        ok_check(FieldType::Password),
        0,
        2 * HOUR,
    );
    assert!(first.is_ok());
    assert!(matches!(second, Err(e) if e.error == RegisterError::UsernameTaken));
    assert_eq!(db.user_login_table.len(), 1);
}

#[test]
fn login_requires_verified_email_and_creates_no_session_otherwise() {
    // Scenario: correct password, but the email was never verified: the
    // login is rejected as EmailNotVerified and no session row appears.
    let mut db = DBHandle::new(true);
    register_ok(&mut db, "alice", "alice@x.com", "P@ssw0rd1", 0);
    let r = login_user(
        &mut db,
        &login_request("alice", "P@ssw0rd1"),
        ok_check(FieldType::Username),
        10,
        WEEK,
    );
    assert!(matches!(r, Err(e) if e.error == LoginError::EmailNotVerified));
    assert_eq!(db.user_sessions_table.len(), 0);
}

/// Registers and verifies an account, ready to log in.
fn make_verified(db: &mut DBHandle, username: &str, email: &str, password: &str) -> i64 {
    let pending = register_ok(db, username, email, password, 0);
    let req = EmailVerificationRequest { token: pending.verification_token };
    verify_email(db, &req, 1).unwrap();
    pending.user_id
}

#[test]
fn login_success_then_gate_accepts_until_expiry() {
    let mut db = DBHandle::new(true);
    make_verified(&mut db, "alice", "alice@x.com", "P@ssw0rd1");
    let (resp, cookie) = login_user(
        &mut db,
        &login_request("alice", "P@ssw0rd1"),
        ok_check(FieldType::Username),
        100,
        WEEK,
    )
    .unwrap();
    assert_eq!(resp.username, "alice");
    assert_eq!(resp.email, "alice@x.com");
    assert_eq!(resp.session_expires_at, 100 + WEEK);
    assert_eq!(resp.session_created_at, 100);
    assert_eq!(cookie.name, "session_token");
    assert!(cookie.http_only);
    assert!(!cookie.secure); // development mode
    assert_eq!(cookie.same_site, SameSite::Lax);
    assert_eq!(cookie.path, "/");
    assert_eq!(cookie.expires_at, Some(100 + WEEK));

    // extraction accepts the cookie while the session lives...
    let auth = authenticate(&db, Some(&cookie.value), 200).unwrap();
    assert_eq!(auth.user.username, "alice");
    let shown = auth_check(&auth);
    assert_eq!(shown.username, "alice");
    assert_eq!(shown.session_expires_at, 100 + WEEK);
    // ...exactly up to the expiry instant...
    assert!(authenticate(&db, Some(&cookie.value), 100 + WEEK).is_ok());
    // ...and never after it, no matter how far in the past it lies
    assert!(authenticate(&db, Some(&cookie.value), 100 + WEEK + 1).is_err());
    assert!(authenticate(&db, Some(&cookie.value), i64::MAX).is_err());
}

#[test]
fn login_failures_are_uniform_and_validated() {
    let mut db = DBHandle::new(true);
    make_verified(&mut db, "alice", "alice@x.com", "P@ssw0rd1");
    let unknown = login_user(
        &mut db,
        &login_request("nobody", "P@ssw0rd1"),
        ok_check(FieldType::Username),
        0,
        WEEK,
    );
    assert!(matches!(unknown, Err(e) if e.error == LoginError::InvalidCredentials));
    let wrong = login_user(
        &mut db,
        &login_request("alice", "not-the-password"),
        ok_check(FieldType::Username),
        0,
        WEEK,
    );
    assert!(matches!(wrong, Err(e) if e.error == LoginError::InvalidCredentials));
    let invalid = login_user(
        &mut db,
        &login_request("a!", "P@ssw0rd1"),
        bad_check(FieldType::Username, ValidationErrorCode::InvalidCharacters),
        0,
        WEEK,
    );
    assert!(matches!(invalid, Err(e) if e.error == LoginError::Validation));
    assert_eq!(db.user_sessions_table.len(), 0);
}

#[test]
fn login_with_wiped_password_is_internal_not_open() {
    let mut db = DBHandle::new(true);
    let id = make_verified(&mut db, "alice", "alice@x.com", "P@ssw0rd1");
    let _ = id;
    db.user_login_table.reset_password("alice");
    let r = login_user(
        &mut db,
        &login_request("alice", "P@ssw0rd1"),
        ok_check(FieldType::Username),
        0,
        WEEK,
    );
    assert!(matches!(r, Err(e) if e.error == LoginError::Internal));
    assert_eq!(db.user_sessions_table.len(), 0);
}

#[test]
fn admin_gate_distinguishes_unauthorized_from_forbidden() {
    // Scenario: no session is Unauthorized; a valid session without the
    // admin role is Forbidden; the admin passes.
    let mut db = DBHandle::new(true);
    let plain_id = make_verified(&mut db, "user", "user@x.com", "P@ssw0rd1");
    let admin_id = make_verified(&mut db, "root", "root@x.com", "P@ssw0rd1");
    db.user_login_table.set_role(admin_id, UserRole::Admin);
    let (_, user_cookie) = login_user(
        &mut db,
        &login_request("user", "P@ssw0rd1"),
        ok_check(FieldType::Username),
        0,
        WEEK,
    )
    .unwrap();
    let (_, admin_cookie) = login_user(
        &mut db,
        &login_request("root", "P@ssw0rd1"),
        ok_check(FieldType::Username),
        0,
        WEEK,
    )
    .unwrap();

    let none = authenticate_admin(&db, None, 10);
    match none {
        Err(rej) => {
            assert!(matches!(rej, AdminRejection::Unauthorized(e) if e.error == AuthError::InvalidCredentials));
            assert_eq!(rej.status_code(), 401);
        },
        Ok(_) => panic!("no cookie must be rejected"),
    }
    let forbidden = authenticate_admin(&db, Some(&user_cookie.value), 10);
    match forbidden {
        Err(rej) => {
            assert!(matches!(rej, AdminRejection::Forbidden));
            assert_eq!(rej.status_code(), 403);
        },
        Ok(_) => panic!("plain user must not pass the admin gate"),
    }
    let admin = authenticate_admin(&db, Some(&admin_cookie.value), 10).unwrap();
    assert_eq!(admin.user.role, UserRole::Admin);

    // admin actions: never on the own account, listing shows everyone
    let listing = admin::list_users(&db, &admin);
    assert_eq!(listing.users.len(), 2);
    let own = admin::update_user_role(
        &mut db,
        &admin,
        admin_id,
        &UpdateUserRoleRequest { role: UserRole::User },
    );
    assert_eq!(own, Err(admin::AdminActionError::OwnAccount));
    let promote = admin::update_user_role(
        &mut db,
        &admin,
        plain_id,
        &UpdateUserRoleRequest { role: UserRole::Admin },
    );
    assert_eq!(promote, Ok(()));
    assert_eq!(db.user_login_table.get_by_user_id(plain_id).unwrap().role, UserRole::Admin);
    assert_eq!(admin::delete_user(&mut db, &admin, admin_id, 50), Err(admin::AdminActionError::OwnAccount));
    assert_eq!(admin::delete_user(&mut db, &admin, plain_id, 50), Ok(()));
    assert_eq!(db.user_login_table.get_by_user_id(plain_id).unwrap().deleted_at, Some(50));
}

#[test]
fn refresh_rotates_the_secret() {
    let mut db = DBHandle::new(true);
    make_verified(&mut db, "alice", "alice@x.com", "P@ssw0rd1");
    let (_, cookie) = login_user(
        &mut db,
        &login_request("alice", "P@ssw0rd1"),
        ok_check(FieldType::Username),
        0,
        WEEK,
    )
    .unwrap();
    let auth = authenticate(&db, Some(&cookie.value), 10).unwrap();
    let (resp, new_cookie) = refresh_session(&mut db, &auth, 20, WEEK).unwrap();
    assert_eq!(resp.session_expires_at, 20 + WEEK);
    assert_eq!(resp.session_created_at, 0);
    assert_ne!(new_cookie.value, cookie.value);
    // the old secret stops working; the new one is accepted
    assert!(authenticate(&db, Some(&cookie.value), 30).is_err());
    assert!(authenticate(&db, Some(&new_cookie.value), 30).is_ok());
    assert_eq!(db.user_sessions_table.len(), 1);
}

#[test]
fn logout_revokes_and_clears() {
    let mut db = DBHandle::new(true);
    make_verified(&mut db, "alice", "alice@x.com", "P@ssw0rd1");
    let (_, cookie) = login_user(
        &mut db,
        &login_request("alice", "P@ssw0rd1"),
        ok_check(FieldType::Username),
        0,
        WEEK,
    )
    .unwrap();
    let clearing = logout_user(&mut db, Some(&cookie.value));
    assert_eq!(clearing.value, "");
    assert_eq!(clearing.expires_at, Some(0));
    assert_eq!(db.user_sessions_table.len(), 0);
    assert!(authenticate(&db, Some(&cookie.value), 10).is_err());
    // logging out again, or without a cookie, is a silent no-op
    let again = logout_user(&mut db, Some(&cookie.value));
    assert_eq!(again.value, "");
    let _ = logout_user(&mut db, None);
}

#[test]
fn password_reset_round_trip() {
    let mut db = DBHandle::new(true);
    make_verified(&mut db, "alice", "alice@x.com", "P@ssw0rd1");
    let job = request_password_reset(
        &mut db,
        &PasswordResetRequest { email: "alice@x.com".to_string() },
        0,
        HOUR,
    )
    .unwrap()
    .unwrap();
    assert_eq!(job.email, "alice@x.com");
    assert!(db.user_login_table.get_by_username("alice").unwrap().password_reset);
    let done = complete_password_reset(
        &mut db,
        &PasswordResetCompleteRequest {
            token: job.reset_token.clone(),
            new_password: "N3w!Passw0rd".to_string(),
        },
        ok_check(FieldType::Password),
        100,
    );
    assert_eq!(done, Ok(()));
    assert!(!db.user_login_table.get_by_username("alice").unwrap().password_reset);
    assert_eq!(db.password_reset_tokens_table.len(), 0);
    assert_eq!(db.user_login_table.is_password_correct("alice", "N3w!Passw0rd"), Ok(true));
    assert_eq!(db.user_login_table.is_password_correct("alice", "P@ssw0rd1"), Ok(false));
    // the consumed token is dead
    let reuse = complete_password_reset(
        &mut db,
        &PasswordResetCompleteRequest {
            token: job.reset_token,
            new_password: "An0ther!Pw".to_string(),
        },
        ok_check(FieldType::Password),
        100,
    );
    assert!(matches!(reuse, Err(e) if e.error == CompletePasswordResetError::InvalidToken));
}

#[test]
fn reset_request_reveals_nothing_about_existence() {
    // Scenario: a reset request for an unknown email answers exactly like
    // one for a known email, and writes nothing.
    let mut db = DBHandle::new(true);
    make_verified(&mut db, "alice", "alice@x.com", "P@ssw0rd1");
    let missing = request_password_reset(
        &mut db,
        &PasswordResetRequest { email: "ghost@x.com".to_string() },
        0,
        HOUR,
    );
    assert!(missing.is_ok());
    assert_eq!(db.password_reset_tokens_table.len(), 0);
    assert!(!db.user_login_table.get_by_username("alice").unwrap().password_reset);
    let existing = request_password_reset(
        &mut db,
        &PasswordResetRequest { email: "alice@x.com".to_string() },
        0,
        HOUR,
    );
    assert!(existing.is_ok());
    assert_eq!(db.password_reset_tokens_table.len(), 1);
    // externally both requests answered with the same success
    assert_eq!(missing.is_ok(), existing.is_ok());
}

#[test]
fn reset_with_weak_new_password_is_refused_and_burns_nothing() {
    let mut db = DBHandle::new(true);
    make_verified(&mut db, "alice", "alice@x.com", "P@ssw0rd1");
    let job = request_password_reset(
        &mut db,
        &PasswordResetRequest { email: "alice@x.com".to_string() },
        0,
        HOUR,
    )
    .unwrap()
    .unwrap();
    let weak = complete_password_reset(
        &mut db,
        &PasswordResetCompleteRequest { token: job.reset_token.clone(), new_password: "weak".to_string() },
        bad_check(FieldType::Password, ValidationErrorCode::TooShort),
        10,
    );
    assert!(matches!(weak, Err(e) if e.error == CompletePasswordResetError::Validation));
    // the token survived the failed attempt and still works
    let done = complete_password_reset(
        &mut db,
        &PasswordResetCompleteRequest { token: job.reset_token, new_password: "N3w!Passw0rd".to_string() },
        ok_check(FieldType::Password),
        20,
    );
    assert_eq!(done, Ok(()));
}

#[test]
fn expired_reset_token_is_just_invalid() {
    let mut db = DBHandle::new(true);
    make_verified(&mut db, "alice", "alice@x.com", "P@ssw0rd1");
    let job = request_password_reset(
        &mut db,
        &PasswordResetRequest { email: "alice@x.com".to_string() },
        0,
        HOUR,
    )
    .unwrap()
    .unwrap();
    let late = complete_password_reset(
        &mut db,
        &PasswordResetCompleteRequest { token: job.reset_token, new_password: "N3w!Passw0rd".to_string() },
        ok_check(FieldType::Password),
        2 * HOUR,
    );
    assert!(matches!(late, Err(e) if e.error == CompletePasswordResetError::InvalidToken));
}

#[test]
fn counter_endpoints_follow_the_gate() {
    let mut db = DBHandle::new(true);
    make_verified(&mut db, "alice", "alice@x.com", "P@ssw0rd1");
    let (_, cookie) = login_user(
        &mut db,
        &login_request("alice", "P@ssw0rd1"),
        ok_check(FieldType::Username),
        0,
        WEEK,
    )
    .unwrap();
    let auth = authenticate(&db, Some(&cookie.value), 1).unwrap();
    let zero = get_counter(&db, &auth).unwrap();
    assert_eq!(zero.value, 0);
    let set = set_counter(&mut db, &auth, &SetCounterRequest { value: 5 });
    assert_eq!(set.value, 5);
    assert_eq!(get_counter(&db, &auth).unwrap().value, 5);
}

#[test]
fn cleanup_tick_sweeps_every_table() {
    let mut db = DBHandle::new(true);
    make_verified(&mut db, "alice", "alice@x.com", "P@ssw0rd1");
    register_ok(&mut db, "limbo", "limbo@x.com", "P@ssw0rd1", 0);
    let (_, cookie) = login_user(
        &mut db,
        &login_request("alice", "P@ssw0rd1"),
        ok_check(FieldType::Username),
        0,
        100,
    )
    .unwrap();
    request_password_reset(
        &mut db,
        &PasswordResetRequest { email: "alice@x.com".to_string() },
        0,
        50,
    )
    .unwrap();
    // beyond every validity: the session, limbo's verification token and
    // the reset token are all expired, and limbo never verified
    let purged = authcore::cleanup::cleanup_tick(&mut db, 10 * HOUR);
    assert_eq!(purged.len(), 1);
    assert_eq!(db.user_sessions_table.len(), 0);
    assert_eq!(db.email_verification_tokens_table.len(), 0);
    assert_eq!(db.password_reset_tokens_table.len(), 0);
    assert_eq!(db.user_login_table.len(), 1);
    assert!(db.user_login_table.get_by_username("alice").is_ok());
    assert!(authenticate(&db, Some(&cookie.value), 10 * HOUR).is_err());
}

#[test]
fn health_reports_okay() {
    assert_eq!(health_check(), SuccessCode::Okay);
}
