//! The counter endpoints: read and write the authenticated account's
//! counter. Auth extraction runs first; these functions only see its result.

use vstd::prelude::*;
use crate::db::DBHandle;
use crate::db::user_data;
use crate::api_types::CounterData;
use crate::api_types::ErrorCode;
use crate::api_types::SetCounterRequest;
use crate::api::auth_extractor::AuthenticatedUser;

verus! {

/// The authenticated account's counter. A missing data row is an internal
/// fault: the row is created with the account.
pub fn get_counter(db: &DBHandle, auth: &AuthenticatedUser) -> (r: Result<CounterData, ErrorCode>)
    ensures
        r matches Ok(c) ==> exists|i: int|
            0 <= i < db.user_data_table@.len() && (#[trigger] db.user_data_table@[i]).user_id
                == auth.user.user_id && db.user_data_table@[i].counter == c.value,
        r matches Err(e) ==> e == ErrorCode::Internal && !user_data::has_user_row(
            db.user_data_table@,
            auth.user.user_id,
        ),
{
    match db.user_data_table.get_counter(auth.user.user_id) {
        Ok(v) => Ok(CounterData { value: v }),
        Err(_) => Err(ErrorCode::Internal),
    }
}

/// Replaces the authenticated account's counter and echoes the new value.
/// A missing data row leaves the store unchanged, as the unmatched `UPDATE`
/// would.
pub fn set_counter(db: &mut DBHandle, auth: &AuthenticatedUser, payload: &SetCounterRequest) -> (r:
    CounterData)
    requires
        old(db).wf(),
    ensures
        final(db).wf(),
        r.value == payload.value,
        final(db).user_login_table@ == old(db).user_login_table@,
        final(db).user_sessions_table@ == old(db).user_sessions_table@,
        final(db).email_verification_tokens_table@ == old(db).email_verification_tokens_table@,
        final(db).password_reset_tokens_table@ == old(db).password_reset_tokens_table@,
        !user_data::has_user_row(old(db).user_data_table@, auth.user.user_id) ==> final(db).user_data_table@ == old(db).user_data_table@,
        user_data::has_user_row(old(db).user_data_table@, auth.user.user_id) ==> exists|i: int|
            0 <= i < old(db).user_data_table@.len() && (#[trigger] old(db).user_data_table@[i]).user_id
                == auth.user.user_id && final(db).user_data_table@
                == old(db).user_data_table@.update(
                i,
                user_data::UserData { user_id: auth.user.user_id, counter: payload.value },
            ),
{
    db.user_data_table.update_counter(auth.user.user_id, payload.value);
    CounterData { value: payload.value }
}

} // verus!
