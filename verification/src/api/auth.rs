//! The authenticated session endpoints: report the session, and refresh
//! it. Refresh rotates the secret: a fresh token replaces the old hash in
//! place, so the cookie the caller held before the refresh stops working.
//! Rotation was chosen over a plain expiry extension for its smaller replay
//! window; the expiry moves out at the same time.

use vstd::prelude::*;
use crate::codec;
use crate::db::DBHandle;
use crate::api_types::AuthError;
use crate::api_types::AuthErrorResponse;
use crate::api_types::AuthSessionResponse;
use crate::api::auth_extractor::AuthenticatedUser;
use crate::api::utils;
use crate::api::utils::SameSite;
use crate::api::utils::SessionCookie;

verus! {

/// Reports the authenticated session: who is logged in, with which role,
/// and how long the session lasts.
pub fn auth_check(auth: &AuthenticatedUser) -> (r: AuthSessionResponse)
    ensures
        r.username@ == auth.user.username@,
        r.email@ == auth.user.email@,
        r.role == auth.user.role,
        r.session_expires_at == auth.session.session_expiry,
        r.session_created_at == auth.session.session_created_at,
{
    AuthSessionResponse {
        username: auth.user.username.clone(),
        email: auth.user.email.clone(),
        role: auth.user.role,
        session_expires_at: auth.session.session_expiry,
        session_created_at: auth.session.session_created_at,
    }
}

/// Rotates the authenticated session: a fresh secret replaces the old one
/// in the same row and the expiry is pushed out. The new raw token leaves
/// only inside the returned cookie.
pub fn refresh_session(
    db: &mut DBHandle,
    auth: &AuthenticatedUser,
    now: i64,
    session_duration_secs: i64,
) -> (r: Result<(AuthSessionResponse, SessionCookie), AuthErrorResponse>)
    requires
        old(db).wf(),
        0 <= session_duration_secs,
        now + session_duration_secs <= i64::MAX,
    ensures
        final(db).wf(),
        final(db).user_login_table@ == old(db).user_login_table@,
        final(db).email_verification_tokens_table@ == old(db).email_verification_tokens_table@,
        final(db).password_reset_tokens_table@ == old(db).password_reset_tokens_table@,
        final(db).user_data_table@ == old(db).user_data_table@,
        final(db).is_dev == old(db).is_dev,
        r matches Err(e) ==> e.error == AuthError::Internal && final(db).user_sessions_table@
            == old(db).user_sessions_table@,
        r matches Ok(p) ==> exists|i: int|
            0 <= i < old(db).user_sessions_table@.len() && (#[trigger] old(db).user_sessions_table@[i]).session_hash@ == auth.session.session_hash@ && {
                let s_old = old(db).user_sessions_table@[i];
                let s_new = final(db).user_sessions_table@[i];
                &&& final(db).user_sessions_table@ == old(db).user_sessions_table@.update(
                    i,
                    s_new,
                )
                &&& s_new.session_hash@ == codec::spec_hash_token(p.1.value@)
                &&& s_new.session_expiry == now + session_duration_secs
                &&& s_new.user_id == s_old.user_id
                &&& s_new.session_id == s_old.session_id
                &&& s_new.session_created_at == s_old.session_created_at
                &&& p.0.username@ == auth.user.username@
                &&& p.0.email@ == auth.user.email@
                &&& p.0.role == auth.user.role
                &&& p.0.session_expires_at == now + session_duration_secs
                &&& p.0.session_created_at == auth.session.session_created_at
                &&& p.1.name@ == "session_token"@
                &&& p.1.value@.len() == 64
                &&& p.1.http_only
                &&& p.1.secure == !old(db).is_dev
                &&& p.1.same_site == SameSite::Lax
                &&& p.1.expires_at == Some((now + session_duration_secs) as i64)
            },
{
    let new_expiry = now + session_duration_secs;
    let token = match codec::generate_session_token() {
        Ok(t) => t,
        Err(_) => {
            return Err(AuthErrorResponse { error: AuthError::Internal });
        },
    };
    let token_hash = codec::hash_token(token.as_str());
    if let Err(_) = db.user_sessions_table.update_session(
        auth.session.session_hash.as_str(),
        new_expiry,
        token_hash.as_str(),
    ) {
        return Err(AuthErrorResponse { error: AuthError::Internal });
    }
    let cookie = utils::create_session_cookie(token, Some(new_expiry), db.is_dev);
    let response = AuthSessionResponse {
        username: auth.user.username.clone(),
        email: auth.user.email.clone(),
        role: auth.user.role,
        session_expires_at: new_expiry,
        session_created_at: auth.session.session_created_at,
    };
    Ok((response, cookie))
}

} // verus!
