//! The admin actions behind the admin gate: list the accounts, change a
//! role, soft-delete an account. An admin can do neither of the last two to
//! their own account — the rule lives here, with the caller, not in the
//! store.

use vstd::prelude::*;
use crate::db::DBHandle;
use crate::db::UserLogin;
use crate::db::user_login;
use crate::api_types::UpdateUserRoleRequest;
use crate::api_types::UserInfoResponse;
use crate::api_types::UserListResponse;
use crate::api::auth_extractor::AdminUser;

verus! {

/// Why an admin action was refused: it targeted the acting admin's own
/// account, or no account holds the id.
#[derive(Clone, Copy, Debug, PartialEq, Eq, Structural)]
pub enum AdminActionError {
    OwnAccount,
    NotFound,
}

/// How one account row appears in the admin listing.
pub open spec fn spec_user_info(u: UserLogin) -> UserInfoResponse {
    UserInfoResponse {
        user_id: u.user_id,
        username: u.username,
        email: u.email,
        role: u.role,
        email_verified: u.email_verified,
        is_deleted: u.deleted_at is Some,
    }
}

/// Every account, mapped to its listing row, in store order.
pub fn list_users(db: &DBHandle, _admin: &AdminUser) -> (r: UserListResponse)
    ensures
        r.users@.len() == db.user_login_table@.len(),
        forall|i: int|
            0 <= i < db.user_login_table@.len() ==> #[trigger] r.users@[i] == spec_user_info(
                db.user_login_table@[i],
            ),
{
    let users = db.user_login_table.get_all_users();
    let n = users.len();
    let mut out: Vec<UserInfoResponse> = Vec::new();
    let mut i: usize = 0;
    while i < n
        invariant
            n == users@.len(),
            users@ == db.user_login_table@,
            i <= n,
            out@.len() == i,
            forall|j: int|
                0 <= j < i ==> #[trigger] out@[j] == spec_user_info(db.user_login_table@[j]),
        decreases n - i,
    {
        let u = &users[i];
        let is_deleted = match u.deleted_at {
            Some(_) => true,
            None => false,
        };
        out.push(
            UserInfoResponse {
                user_id: u.user_id,
                username: u.username.clone(),
                email: u.email.clone(),
                role: u.role,
                email_verified: u.email_verified,
                is_deleted,
            },
        );
        i = i + 1;
    }
    UserListResponse { users: out }
}

/// Changes an account's role. Refused on the acting admin's own id — no
/// self-escalation and no self-demotion — and on an unknown id.
pub fn update_user_role(
    db: &mut DBHandle,
    admin: &AdminUser,
    user_id: i64,
    payload: &UpdateUserRoleRequest,
) -> (r: Result<(), AdminActionError>)
    requires
        old(db).wf(),
    ensures
        final(db).wf(),
        final(db).user_sessions_table@ == old(db).user_sessions_table@,
        final(db).email_verification_tokens_table@ == old(db).email_verification_tokens_table@,
        final(db).password_reset_tokens_table@ == old(db).password_reset_tokens_table@,
        final(db).user_data_table@ == old(db).user_data_table@,
        user_id == admin.user.user_id ==> r == Err::<(), AdminActionError>(
            AdminActionError::OwnAccount,
        ) && final(db).user_login_table@ == old(db).user_login_table@,
        user_id != admin.user.user_id && !user_login::has_user_id(
            old(db).user_login_table@,
            user_id,
        ) ==> r == Err::<(), AdminActionError>(AdminActionError::NotFound) && final(db).user_login_table@ == old(db).user_login_table@,
        user_id != admin.user.user_id && user_login::has_user_id(
            old(db).user_login_table@,
            user_id,
        ) ==> r == Ok::<(), AdminActionError>(()) && exists|i: int|
            0 <= i < old(db).user_login_table@.len() && (#[trigger] old(db).user_login_table@[i]).user_id == user_id && final(db).user_login_table@ == old(db).user_login_table@.update(
                i,
                (UserLogin { role: payload.role, ..old(db).user_login_table@[i] }),
            ),
{
    if user_id == admin.user.user_id {
        return Err(AdminActionError::OwnAccount);
    }
    match db.user_login_table.get_by_user_id(user_id) {
        Ok(_) => {},
        Err(_) => {
            return Err(AdminActionError::NotFound);
        },
    }
    db.user_login_table.set_role(user_id, payload.role);
    Ok(())
}

/// Soft-deletes an account. Refused on the acting admin's own id and on an
/// unknown id.
pub fn delete_user(db: &mut DBHandle, admin: &AdminUser, user_id: i64, now: i64) -> (r: Result<
    (),
    AdminActionError,
>)
    requires
        old(db).wf(),
    ensures
        final(db).wf(),
        final(db).user_sessions_table@ == old(db).user_sessions_table@,
        final(db).email_verification_tokens_table@ == old(db).email_verification_tokens_table@,
        final(db).password_reset_tokens_table@ == old(db).password_reset_tokens_table@,
        final(db).user_data_table@ == old(db).user_data_table@,
        user_id == admin.user.user_id ==> r == Err::<(), AdminActionError>(
            AdminActionError::OwnAccount,
        ) && final(db).user_login_table@ == old(db).user_login_table@,
        user_id != admin.user.user_id && !user_login::has_user_id(
            old(db).user_login_table@,
            user_id,
        ) ==> r == Err::<(), AdminActionError>(AdminActionError::NotFound) && final(db).user_login_table@ == old(db).user_login_table@,
        user_id != admin.user.user_id && user_login::has_user_id(
            old(db).user_login_table@,
            user_id,
        ) ==> r == Ok::<(), AdminActionError>(()) && exists|i: int|
            0 <= i < old(db).user_login_table@.len() && (#[trigger] old(db).user_login_table@[i]).user_id == user_id && final(db).user_login_table@ == old(db).user_login_table@.update(
                i,
                (UserLogin { deleted_at: Some(now), ..old(db).user_login_table@[i] }),
            ),
{
    if user_id == admin.user.user_id {
        return Err(AdminActionError::OwnAccount);
    }
    match db.user_login_table.get_by_user_id(user_id) {
        Ok(_) => {},
        Err(_) => {
            return Err(AdminActionError::NotFound);
        },
    }
    db.user_login_table.delete_by_user_id(user_id, now);
    Ok(())
}

} // verus!
