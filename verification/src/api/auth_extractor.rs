//! The gates in front of every authenticated request. `authenticate` turns
//! the session cookie into an authenticated context or a rejection;
//! `authenticate_admin` composes it with the role predicate. A missing
//! cookie, an unknown token, an expired session and a vanished account all
//! yield the same `Unauthorized` rejection — the extractor never reveals which
//! it was — while a valid session without the admin role yields the
//! distinct `Forbidden`.

use vstd::prelude::*;
use crate::codec;
use crate::db::DBHandle;
use crate::db::UserLogin;
use crate::db::UserRole;
use crate::db::UserSession;
use crate::db::user_login;
use crate::api_types::AuthError;
use crate::api_types::AuthErrorResponse;

verus! {

/// An authenticated request context: the account and the live session the
/// cookie proved.
pub struct AuthenticatedUser {
    pub user: UserLogin,
    pub session: UserSession,
}

/// An authenticated context whose account holds the admin role.
pub struct AdminUser {
    pub user: UserLogin,
    pub session: UserSession,
}

/// Why the admin gate rejected: not authenticated at all, or authenticated
/// without the admin role.
#[derive(Clone, Copy, Debug, PartialEq, Eq, Structural)]
pub enum AdminRejection {
    Unauthorized(AuthErrorResponse),
    Forbidden,
}

impl AdminRejection {
    /// The HTTP status this rejection maps to: 401 for a missing or invalid
    /// session, 403 for a valid session without the role.
    pub fn status_code(&self) -> (r: u16)
        ensures
            self is Unauthorized ==> r == 401,
            self is Forbidden ==> r == 403,
    {
        match self {
            AdminRejection::Unauthorized(_) => 401,
            AdminRejection::Forbidden => 403,
        }
    }
}

/// Session `i` proves the token whose lookup hash is `hash`, and is still
/// alive at `now`.
pub open spec fn valid_session_at(
    sessions: Seq<UserSession>,
    hash: Seq<char>,
    now: i64,
    i: int,
) -> bool {
    0 <= i < sessions.len() && sessions[i].session_hash@ == hash && sessions[i].session_expiry
        >= now
}

/// The token authenticates against the store at `now`: a live session holds
/// its hash and the owning account still exists.
pub open spec fn spec_authenticated(db: DBHandle, token: Seq<char>, now: i64) -> bool {
    exists|i: int|
        #![trigger valid_session_at(db.user_sessions_table@, codec::spec_hash_token(token), now, i)]
        valid_session_at(db.user_sessions_table@, codec::spec_hash_token(token), now, i)
            && user_login::has_user_id(db.user_login_table@, db.user_sessions_table@[i].user_id)
}

/// The token authenticates and the owning account holds the admin role.
pub open spec fn spec_admin(db: DBHandle, token: Seq<char>, now: i64) -> bool {
    exists|i: int, j: int|
        #![trigger valid_session_at(db.user_sessions_table@, codec::spec_hash_token(token), now, i), db.user_login_table@[j]]
        valid_session_at(db.user_sessions_table@, codec::spec_hash_token(token), now, i) && 0 <= j
            < db.user_login_table@.len() && db.user_login_table@[j].user_id
            == db.user_sessions_table@[i].user_id && db.user_login_table@[j].role == UserRole::Admin
}

/// Auth extraction: cookie to hash, hash to session, expiry check, account load.
/// Succeeds exactly when a live session holds the cookie's hash and its
/// account still exists; every failure is the same rejection.
pub fn authenticate(db: &DBHandle, session_cookie: Option<&str>, now: i64) -> (r: Result<
    AuthenticatedUser,
    AuthErrorResponse,
>)
    requires
        db.wf(),
    ensures
        (r matches Ok(a)) <==> (session_cookie matches Some(t) && spec_authenticated(
            *db,
            t@,
            now,
        )),
        r matches Ok(a) ==> {
            &&& db.user_sessions_table@.contains(a.session)
            &&& session_cookie matches Some(t) && a.session.session_hash@
                == codec::spec_hash_token(t@)
            &&& a.session.session_expiry >= now
            &&& db.user_login_table@.contains(a.user)
            &&& a.user.user_id == a.session.user_id
        },
        r matches Err(e) ==> e == (AuthErrorResponse { error: AuthError::InvalidCredentials }),
{
    let token = match session_cookie {
        Some(t) => t,
        None => {
            return Err(AuthErrorResponse { error: AuthError::InvalidCredentials });
        },
    };
    let session = match db.user_sessions_table.lookup(token, now) {
        Ok(s) => s,
        Err(_) => {
            return Err(AuthErrorResponse { error: AuthError::InvalidCredentials });
        },
    };
    let user = match db.user_login_table.get_by_user_id(session.user_id) {
        Ok(u) => u,
        Err(_) => {
            proof {
                let k = choose|k: int|
                    0 <= k < db.user_sessions_table@.len() && db.user_sessions_table@[k]
                        == session;
                assert forall|i: int|
                    valid_session_at(
                        db.user_sessions_table@,
                        codec::spec_hash_token(token@),
                        now,
                        i,
                    ) implies !user_login::has_user_id(
                    db.user_login_table@,
                    db.user_sessions_table@[i].user_id,
                ) by {
                    if i != k {
                        assert(db.user_sessions_table@[i].session_hash@
                            != db.user_sessions_table@[k].session_hash@);
                    }
                }
            }
            return Err(AuthErrorResponse { error: AuthError::InvalidCredentials });
        },
    };
    proof {
        let k = choose|k: int|
            0 <= k < db.user_sessions_table@.len() && db.user_sessions_table@[k] == session;
        assert(valid_session_at(
            db.user_sessions_table@,
            codec::spec_hash_token(token@),
            now,
            k,
        ));
        assert(user_login::has_user_id(db.user_login_table@, db.user_sessions_table@[k].user_id))
            by {
            let j = choose|j: int|
                0 <= j < db.user_login_table@.len() && db.user_login_table@[j] == user;
            assert(db.user_login_table@[j].user_id == session.user_id);
        }
    }
    Ok(AuthenticatedUser { user, session })
}

/// The admin check: the extraction above, then the role predicate. A failed
/// extraction is `Unauthorized`; an authenticated non-admin is `Forbidden`,
/// a distinct status — that caller was authenticated, just not permitted.
pub fn authenticate_admin(db: &DBHandle, session_cookie: Option<&str>, now: i64) -> (r: Result<
    AdminUser,
    AdminRejection,
>)
    requires
        db.wf(),
    ensures
        (r matches Ok(a)) <==> (session_cookie matches Some(t) && spec_admin(*db, t@, now)),
        r matches Ok(a) ==> {
            &&& db.user_sessions_table@.contains(a.session)
            &&& session_cookie matches Some(t) && a.session.session_hash@
                == codec::spec_hash_token(t@)
            &&& a.session.session_expiry >= now
            &&& db.user_login_table@.contains(a.user)
            &&& a.user.user_id == a.session.user_id
            &&& a.user.role == UserRole::Admin
        },
        !(session_cookie matches Some(t) && spec_authenticated(*db, t@, now)) ==> r == Err::<
            AdminUser,
            AdminRejection,
        >(AdminRejection::Unauthorized(AuthErrorResponse { error: AuthError::InvalidCredentials })),
        (session_cookie matches Some(t) && spec_authenticated(*db, t@, now) && !spec_admin(
            *db,
            t@,
            now,
        )) ==> r == Err::<AdminUser, AdminRejection>(AdminRejection::Forbidden),
{
    let auth = match authenticate(db, session_cookie, now) {
        Ok(a) => a,
        Err(e) => {
            return Err(AdminRejection::Unauthorized(e));
        },
    };
    let is_admin = match auth.user.role {
        UserRole::Admin => true,
        UserRole::User => false,
    };
    if !is_admin {
        proof {
            let t = session_cookie->Some_0;
            let k = choose|k: int|
                0 <= k < db.user_sessions_table@.len() && db.user_sessions_table@[k]
                    == auth.session;
            assert forall|i: int, j: int|
                !(valid_session_at(
                    db.user_sessions_table@,
                    codec::spec_hash_token(t@),
                    now,
                    i,
                ) && 0 <= j < db.user_login_table@.len() && db.user_login_table@[j].user_id
                    == db.user_sessions_table@[i].user_id && db.user_login_table@[j].role
                    == UserRole::Admin) by {
                if valid_session_at(db.user_sessions_table@, codec::spec_hash_token(t@), now, i) {
                    if i != k {
                        assert(db.user_sessions_table@[i].session_hash@
                            != db.user_sessions_table@[k].session_hash@);
                    }
                    let l = choose|l: int|
                        0 <= l < db.user_login_table@.len() && db.user_login_table@[l]
                            == auth.user;
                    if 0 <= j < db.user_login_table@.len() && db.user_login_table@[j].user_id
                        == db.user_sessions_table@[i].user_id && j != l {
                        assert(db.user_login_table@[j].user_id
                            != db.user_login_table@[l].user_id);
                    }
                }
            }
        }
        return Err(AdminRejection::Forbidden);
    }
    proof {
        let t = session_cookie->Some_0;
        let k = choose|k: int|
            0 <= k < db.user_sessions_table@.len() && db.user_sessions_table@[k] == auth.session;
        let l = choose|l: int|
            0 <= l < db.user_login_table@.len() && db.user_login_table@[l] == auth.user;
        assert(valid_session_at(db.user_sessions_table@, codec::spec_hash_token(t@), now, k) && 0
            <= l < db.user_login_table@.len() && db.user_login_table@[l].user_id
            == db.user_sessions_table@[k].user_id && db.user_login_table@[l].role
            == UserRole::Admin);
    }
    Ok(AdminUser { user: auth.user, session: auth.session })
}

} // verus!
