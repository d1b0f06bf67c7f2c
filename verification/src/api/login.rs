//! Login: validate the username field, load the account, require a
//! verified email, verify the password, and only then issue a session. The
//! checks run strictly in that order; no session row is ever written on a
//! failed login. Whether the username is unknown or the password wrong, the
//! response is the same `InvalidCredentials`.

use vstd::prelude::*;
use crate::codec;
use crate::db::DBHandle;
use crate::db::user_login;
use crate::api_types::LoginError;
use crate::api_types::LoginErrorResponse;
use crate::api_types::LoginRequest;
use crate::api_types::LoginResponse;
use crate::api_types::ValidationErrorData;
use crate::api_types::ValidationFieldError;
use crate::api::utils;
use crate::api::utils::SameSite;
use crate::api::utils::SessionCookie;

verus! {

/// Logs an account in. `username_check` is the field validator's verdict on
/// the submitted username, produced outside this crate. On success the new
/// session's raw token leaves only inside the returned cookie; the store
/// keeps its hash.
pub fn login_user(
    db: &mut DBHandle,
    payload: &LoginRequest,
    username_check: ValidationFieldError,
    now: i64,
    session_duration_secs: i64,
) -> (r: Result<(LoginResponse, SessionCookie), LoginErrorResponse>)
    requires
        old(db).wf(),
        0 <= session_duration_secs,
        now + session_duration_secs <= i64::MAX,
    ensures
        final(db).wf(),
        final(db).user_login_table@ == old(db).user_login_table@,
        final(db).email_verification_tokens_table@ == old(db).email_verification_tokens_table@,
        final(db).password_reset_tokens_table@ == old(db).password_reset_tokens_table@,
        final(db).user_data_table@ == old(db).user_data_table@,
        final(db).is_dev == old(db).is_dev,
        r matches Err(_) ==> final(db).user_sessions_table@ == old(db).user_sessions_table@,
        !username_check.spec_is_valid() ==> (r matches Err(e) && e.error
            == LoginError::Validation && (e.validation matches Some(v) && v.field_errors@.len()
            == 1 && v.field_errors@[0] == username_check)),
        username_check.spec_is_valid() && !user_login::has_username(
            old(db).user_login_table@,
            payload.username@,
        ) ==> (r matches Err(e) && e.error == LoginError::InvalidCredentials && e.validation
            is None),
        username_check.spec_is_valid() ==> forall|i: int|
            (0 <= i < old(db).user_login_table@.len() && (#[trigger] old(db).user_login_table@[i]).username@ == payload.username@ && !old(db).user_login_table@[i].email_verified) ==> (r matches Err(e)
                && e.error == LoginError::EmailNotVerified && e.validation is None),
        username_check.spec_is_valid() ==> forall|i: int|
            (0 <= i < old(db).user_login_table@.len() && (#[trigger] old(db).user_login_table@[i]).username@ == payload.username@ && old(db).user_login_table@[i].email_verified && (old(db).user_login_table@[i].password
                matches Some(h) && !codec::password_matches(payload.password@, h@))) ==> (r
                matches Err(e) && (e.error == LoginError::InvalidCredentials || e.error
                == LoginError::Internal) && e.validation is None),
        username_check.spec_is_valid() ==> forall|i: int|
            (0 <= i < old(db).user_login_table@.len() && (#[trigger] old(db).user_login_table@[i]).username@ == payload.username@ && old(db).user_login_table@[i].email_verified && old(db).user_login_table@[i].password
                is None) ==> (r matches Err(e) && e.error == LoginError::Internal),
        username_check.spec_is_valid() ==> forall|i: int|
            (0 <= i < old(db).user_login_table@.len() && (#[trigger] old(db).user_login_table@[i]).username@ == payload.username@ && old(db).user_login_table@[i].email_verified && (old(db).user_login_table@[i].password
                matches Some(h) && codec::password_matches(payload.password@, h@))) ==> (r is Ok
                || (r matches Err(e) && e.error == LoginError::Internal)),
        r matches Ok(p) ==> exists|i: int|
            0 <= i < old(db).user_login_table@.len() && (#[trigger] old(db).user_login_table@[i]).username@ == payload.username@ && {
                let u = old(db).user_login_table@[i];
                &&& u.email_verified
                &&& (u.password matches Some(h) && codec::password_matches(payload.password@, h@))
                &&& p.0.username@ == u.username@
                &&& p.0.email@ == u.email@
                &&& p.0.role == u.role
                &&& p.0.session_expires_at == now + session_duration_secs
                &&& p.0.session_created_at == now
                &&& p.1.name@ == "session_token"@
                &&& p.1.value@.len() == 64
                &&& p.1.http_only
                &&& p.1.secure == !old(db).is_dev
                &&& p.1.same_site == SameSite::Lax
                &&& p.1.expires_at == Some((now + session_duration_secs) as i64)
                &&& final(db).user_sessions_table@.len() == old(db).user_sessions_table@.len() + 1
                &&& final(db).user_sessions_table@.take(old(db).user_sessions_table@.len() as int)
                    == old(db).user_sessions_table@
                &&& final(db).user_sessions_table@.last().user_id == u.user_id
                &&& final(db).user_sessions_table@.last().session_hash@ == codec::spec_hash_token(
                    p.1.value@,
                )
                &&& final(db).user_sessions_table@.last().session_expiry == now
                    + session_duration_secs
                &&& final(db).user_sessions_table@.last().session_created_at == now
            },
{
    if !username_check.is_valid() {
        let mut errs: Vec<ValidationFieldError> = Vec::new();
        errs.push(username_check);
        return Err(
            LoginErrorResponse {
                error: LoginError::Validation,
                validation: Some(ValidationErrorData::from_errors(errs)),
            },
        );
    }
    let user = match db.user_login_table.get_by_username(payload.username.as_str()) {
        Ok(u) => u,
        Err(_) => {
            return Err(
                LoginErrorResponse { error: LoginError::InvalidCredentials, validation: None },
            );
        },
    };
    proof {
        let k = choose|k: int|
            0 <= k < db.user_login_table@.len() && db.user_login_table@[k] == user;
        assert forall|i: int|
            (0 <= i < db.user_login_table@.len() && (#[trigger] db.user_login_table@[i]).username@
                == payload.username@) implies db.user_login_table@[i] == user by {
            if i != k {
                assert(db.user_login_table@[i].username@ != db.user_login_table@[k].username@);
            }
        }
    }
    if !user.email_verified {
        return Err(
            LoginErrorResponse { error: LoginError::EmailNotVerified, validation: None },
        );
    }
    let correct = match db.user_login_table.is_password_correct(
        payload.username.as_str(),
        payload.password.as_str(),
    ) {
        Ok(b) => b,
        Err(_) => {
            return Err(LoginErrorResponse { error: LoginError::Internal, validation: None });
        },
    };
    if !correct {
        return Err(
            LoginErrorResponse { error: LoginError::InvalidCredentials, validation: None },
        );
    }
    let expiry = now + session_duration_secs;
    let (session_token, _session) = match db.user_sessions_table.issue(
        user.user_id,
        now,
        session_duration_secs,
    ) {
        Ok(p) => p,
        Err(_) => {
            return Err(LoginErrorResponse { error: LoginError::Internal, validation: None });
        },
    };
    proof {
        assert(db.user_sessions_table@.take(old(db).user_sessions_table@.len() as int) =~= old(db).user_sessions_table@);
    }
    let cookie = utils::create_session_cookie(session_token, Some(expiry), db.is_dev);
    let response = LoginResponse {
        username: user.username,
        email: user.email,
        role: user.role,
        session_expires_at: expiry,
        session_created_at: now,
    };
    Ok((response, cookie))
}

} // verus!
