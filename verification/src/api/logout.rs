//! Logout: revoke the cookie's session and hand back a clearing cookie.
//! Revocation is idempotent — an absent or already-revoked session is a
//! silent no-op, and the response is the same either way.

use vstd::prelude::*;
use crate::codec;
use crate::db::DBHandle;
use crate::db::user_sessions;
use crate::api::utils;
use crate::api::utils::SessionCookie;

verus! {

/// Deletes the session the cookie proves, if any, and returns the cookie
/// that clears the browser's copy: empty value, expiry at the epoch.
pub fn logout_user(db: &mut DBHandle, session_cookie: Option<&str>) -> (r: SessionCookie)
    requires
        old(db).wf(),
    ensures
        final(db).wf(),
        session_cookie matches Some(t) ==> final(db).user_sessions_table@
            == user_sessions::spec_remove_by_hash(
            old(db).user_sessions_table@,
            codec::spec_hash_token(t@),
        ),
        session_cookie is None ==> final(db).user_sessions_table@ == old(db).user_sessions_table@,
        final(db).user_login_table@ == old(db).user_login_table@,
        final(db).email_verification_tokens_table@ == old(db).email_verification_tokens_table@,
        final(db).password_reset_tokens_table@ == old(db).password_reset_tokens_table@,
        final(db).user_data_table@ == old(db).user_data_table@,
        final(db).is_dev == old(db).is_dev,
        r.name@ == "session_token"@,
        r.value@.len() == 0,
        r.expires_at == Some(0i64),
        r.http_only,
        r.secure == !old(db).is_dev,
{
    match session_cookie {
        Some(token) => {
            let hash = codec::hash_token(token);
            db.user_sessions_table.delete_by_hash(hash.as_str());
        },
        None => {},
    }
    utils::create_session_cookie(String::new(), Some(0), db.is_dev)
}

} // verus!
