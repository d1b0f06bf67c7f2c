//! Shared pieces of the request flows: the default durations, the base
//! URLs, the session cookie model and the links the emails carry.

use vstd::prelude::*;

verus! {

/// Default session validity, in days.
pub const SESSION_DURATION_DAYS: i64 = 7;

/// Default email-verification token validity, in hours.
pub const EMAIL_VERIFICATION_TOKEN_DURATION_HOURS: i64 = 2;

/// Default password-reset token validity, in hours.
pub const PASSWORD_RESET_TOKEN_DURATION_HOURS: i64 = 1;

/// Base URL of the development deployment.
pub const BASE_URL_DEV: &'static str = "http://localhost:4000";

/// Base URL of the production deployment.
pub const BASE_URL_PROD: &'static str = "https://example.com";

/// The `SameSite` attribute a cookie carries. This crate always issues
/// `Lax`: the session cookie rides on top-level navigations but not on
/// cross-site subrequests.
#[derive(Clone, Copy, Debug, PartialEq, Eq, Structural)]
pub enum SameSite {
    Strict,
    Lax,
}

/// A cookie as this crate issues it; the HTTP layer serialises it verbatim.
pub struct SessionCookie {
    pub name: String,
    pub value: String,
    pub path: String,
    pub http_only: bool,
    pub secure: bool,
    pub same_site: SameSite,
    /// Unix seconds of the `Expires` attribute; `None` leaves it unset.
    pub expires_at: Option<i64>,
}

/// Builds the session cookie: named `session_token`, bound to the whole
/// site, hidden from scripts, `Secure` outside development mode,
/// `SameSite=Lax`, expiring with the session it carries.
pub fn create_session_cookie(value: String, expires_at: Option<i64>, is_dev: bool) -> (r:
    SessionCookie)
    ensures
        r.name@ == "session_token"@,
        r.value == value,
        r.path@ == "/"@,
        r.http_only,
        r.secure == !is_dev,
        r.same_site == SameSite::Lax,
        r.expires_at == expires_at,
{
    SessionCookie {
        name: "session_token".to_owned(),
        value,
        path: "/".to_owned(),
        http_only: true,
        secure: !is_dev,
        same_site: SameSite::Lax,
        expires_at,
    }
}

/// The link a verification email carries.
pub fn verification_link(base_url: &str, token: &str) -> (r: String)
    ensures
        r@ == base_url@ + "/verify-email?token="@ + token@,
{
    let mut out = base_url.to_owned();
    out.append("/verify-email?token=");
    out.append(token);
    out
}

/// The link a password-reset email carries.
pub fn reset_link(base_url: &str, token: &str) -> (r: String)
    ensures
        r@ == base_url@ + "/reset-password?token="@ + token@,
{
    let mut out = base_url.to_owned();
    out.append("/reset-password?token=");
    out.append(token);
    out
}

} // verus!
