//! The two halves of a password reset. Requesting a reset answers with the
//! same success whether or not the email belongs to an account — the
//! endpoint must not be an account-existence oracle — and only in the
//! existing case issues a token and sets the reset-pending flag. Completing
//! a reset consumes a live token, re-hashes the new password, clears the
//! flag and burns the token.

use vstd::prelude::*;
use crate::codec;
use crate::db::DBHandle;
use crate::db::password_reset_tokens;
use crate::db::user_login;
use crate::api_types::CompletePasswordResetError;
use crate::api_types::CompletePasswordResetErrorResponse;
use crate::api_types::ErrorCode;
use crate::api_types::PasswordResetCompleteRequest;
use crate::api_types::PasswordResetRequest;
use crate::api_types::ValidationErrorData;
use crate::api_types::ValidationFieldError;

verus! {

/// The email the caller must dispatch after a reset request for an existing
/// account: the address, and the raw reset token to put in the link.
pub struct ResetEmailJob {
    pub email: String,
    pub reset_token: String,
}

/// A live reset-token row holds this hash at `now`.
pub open spec fn live_reset_token_at(
    toks: Seq<password_reset_tokens::PasswordResetToken>,
    hash: Seq<char>,
    now: i64,
    i: int,
) -> bool {
    0 <= i < toks.len() && toks[i].token_hash@ == hash && toks[i].expires_at >= now
}

/// Requests a password reset. `Ok(None)` when no account holds the email —
/// outwardly identical to `Ok(Some(_))`, and nothing is written; for an
/// existing account the single reset slot is (re)issued and the
/// reset-pending flag set.
pub fn request_password_reset(
    db: &mut DBHandle,
    payload: &PasswordResetRequest,
    now: i64,
    reset_validity_secs: i64,
) -> (r: Result<Option<ResetEmailJob>, ErrorCode>)
    requires
        old(db).wf(),
        0 <= reset_validity_secs,
        now + reset_validity_secs <= i64::MAX,
    ensures
        final(db).wf(),
        final(db).user_login_table@.len() == old(db).user_login_table@.len(),
        final(db).user_sessions_table@ == old(db).user_sessions_table@,
        final(db).email_verification_tokens_table@ == old(db).email_verification_tokens_table@,
        final(db).user_data_table@ == old(db).user_data_table@,
        final(db).is_dev == old(db).is_dev,
        !user_login::has_email(old(db).user_login_table@, payload.email@) <==> r == Ok::<
            Option<ResetEmailJob>,
            ErrorCode,
        >(None),
        r == Ok::<Option<ResetEmailJob>, ErrorCode>(None) ==> final(db).user_login_table@ == old(db).user_login_table@ && final(db).password_reset_tokens_table@ == old(db).password_reset_tokens_table@,
        r matches Err(e) ==> e == ErrorCode::Internal && final(db).user_login_table@ == old(db).user_login_table@ && final(db).password_reset_tokens_table@ == old(db).password_reset_tokens_table@,
        r matches Ok(o) ==> (o matches Some(job) ==> exists|j: int|
            0 <= j < old(db).user_login_table@.len() && (#[trigger] old(db).user_login_table@[j]).email@ == payload.email@ && {
                let id = old(db).user_login_table@[j].user_id;
                &&& job.email@ == payload.email@
                &&& job.reset_token@.len() == 64
                &&& final(db).user_login_table@ == old(db).user_login_table@.update(
                    j,
                    (user_login::UserLogin {
                        password_reset: true,
                        ..old(db).user_login_table@[j]
                    }),
                )
                &&& exists|i: int|
                    0 <= i < final(db).password_reset_tokens_table@.len() && (#[trigger] final(db).password_reset_tokens_table@[i]).user_id == id && final(db).password_reset_tokens_table@[i].token_hash@ == codec::spec_hash_token(
                        job.reset_token@,
                    ) && final(db).password_reset_tokens_table@[i].expires_at == now
                        + reset_validity_secs && final(db).password_reset_tokens_table@[i].created_at == now
                &&& !password_reset_tokens::has_user_row(
                    old(db).password_reset_tokens_table@,
                    id,
                ) ==> final(db).password_reset_tokens_table@.len() == old(db).password_reset_tokens_table@.len() + 1 && final(db).password_reset_tokens_table@.take(
                    old(db).password_reset_tokens_table@.len() as int,
                ) == old(db).password_reset_tokens_table@
                &&& password_reset_tokens::has_user_row(
                    old(db).password_reset_tokens_table@,
                    id,
                ) ==> exists|i: int|
                    0 <= i < old(db).password_reset_tokens_table@.len() && (#[trigger] old(db).password_reset_tokens_table@[i]).user_id == id && final(db).password_reset_tokens_table@ == old(db).password_reset_tokens_table@.update(
                        i,
                        final(db).password_reset_tokens_table@[i],
                    )
            }),
{
    let user = match db.user_login_table.get_by_email(payload.email.as_str()) {
        Ok(u) => u,
        Err(_) => {
            return Ok(None);
        },
    };
    let ghost uj = choose|k: int|
        0 <= k < db.user_login_table@.len() && db.user_login_table@[k] == user;
    let token = match db.password_reset_tokens_table.issue(
        user.user_id,
        now,
        reset_validity_secs,
    ) {
        Ok(t) => t,
        Err(_) => {
            return Err(ErrorCode::Internal);
        },
    };
    db.user_login_table.set_password_reset_flag(user.user_id, true);
    proof {
        assert(user_login::has_user_id(old(db).user_login_table@, user.user_id)) by {
            assert(old(db).user_login_table@[uj].user_id == user.user_id);
        }
        let j2 = choose|j2: int|
            0 <= j2 < old(db).user_login_table@.len() && old(db).user_login_table@[j2].user_id
                == user.user_id && db.user_login_table@ == old(db).user_login_table@.update(
                j2,
                (user_login::UserLogin {
                    password_reset: true,
                    ..old(db).user_login_table@[j2]
                }),
            );
        assert(j2 == uj) by {
            if j2 != uj {
                assert(old(db).user_login_table@[j2].user_id
                    != old(db).user_login_table@[uj].user_id);
            }
        }
        assert(old(db).user_login_table@[uj].email@ == payload.email@);
    }
    Ok(Some(ResetEmailJob { email: user.email, reset_token: token }))
}

/// Completes a password reset: consumes the token (absent and expired are
/// the same `InvalidToken`), requires the new password to have passed the
/// strength validator, stores its hash, clears the reset-pending flag and
/// deletes the token row.
pub fn complete_password_reset(
    db: &mut DBHandle,
    payload: &PasswordResetCompleteRequest,
    password_check: ValidationFieldError,
    now: i64,
) -> (r: Result<(), CompletePasswordResetErrorResponse>)
    requires
        old(db).wf(),
    ensures
        final(db).wf(),
        final(db).user_sessions_table@ == old(db).user_sessions_table@,
        final(db).email_verification_tokens_table@ == old(db).email_verification_tokens_table@,
        final(db).user_data_table@ == old(db).user_data_table@,
        final(db).is_dev == old(db).is_dev,
        r matches Err(_) ==> final(db).user_login_table@ == old(db).user_login_table@ && final(db).password_reset_tokens_table@ == old(db).password_reset_tokens_table@,
        !(exists|i: int|
            live_reset_token_at(
                old(db).password_reset_tokens_table@,
                codec::spec_hash_token(payload.token@),
                now,
                i,
            )) ==> (r matches Err(e) && e.error == CompletePasswordResetError::InvalidToken),
        (exists|i: int|
            live_reset_token_at(
                old(db).password_reset_tokens_table@,
                codec::spec_hash_token(payload.token@),
                now,
                i,
            )) && !password_check.spec_is_valid() ==> (r matches Err(e) && e.error
            == CompletePasswordResetError::Validation && (e.validation matches Some(v)
            && v.field_errors@.len() == 1 && v.field_errors@[0] == password_check)),
        (exists|i: int|
            live_reset_token_at(
                old(db).password_reset_tokens_table@,
                codec::spec_hash_token(payload.token@),
                now,
                i,
            )) && password_check.spec_is_valid() ==> (r is Ok || (r matches Err(e) && e.error
            == CompletePasswordResetError::Internal)),
        r matches Ok(_) ==> password_check.spec_is_valid() && exists|i: int|
            live_reset_token_at(
                old(db).password_reset_tokens_table@,
                codec::spec_hash_token(payload.token@),
                now,
                i,
            ) && {
                let id = old(db).password_reset_tokens_table@[i].user_id;
                &&& final(db).password_reset_tokens_table@
                    == password_reset_tokens::spec_remove_by_user_id(
                    old(db).password_reset_tokens_table@,
                    id,
                )
                &&& !user_login::has_user_id(old(db).user_login_table@, id) ==> final(db).user_login_table@ == old(db).user_login_table@
                &&& user_login::has_user_id(old(db).user_login_table@, id) ==> exists|j: int|
                    0 <= j < old(db).user_login_table@.len() && (#[trigger] old(db).user_login_table@[j]).user_id == id && final(db).user_login_table@ == old(db).user_login_table@.update(j, final(db).user_login_table@[j]) && {
                        let u = final(db).user_login_table@[j];
                        &&& (u.password matches Some(h) && codec::password_matches(
                            payload.new_password@,
                            h@,
                        ))
                        &&& !u.password_reset
                        &&& u.username@ == old(db).user_login_table@[j].username@
                        &&& u.email@ == old(db).user_login_table@[j].email@
                        &&& u.user_id == id
                        &&& u.email_verified == old(db).user_login_table@[j].email_verified
                        &&& u.role == old(db).user_login_table@[j].role
                    }
            },
{
    let token_hash = codec::hash_token(payload.token.as_str());
    let reset_record = match db.password_reset_tokens_table.get_by_token_hash(
        token_hash.as_str(),
    ) {
        Ok(rec) => rec,
        Err(_) => {
            return Err(
                CompletePasswordResetErrorResponse {
                    error: CompletePasswordResetError::InvalidToken,
                    validation: None,
                },
            );
        },
    };
    let ghost ti = choose|k: int|
        0 <= k < db.password_reset_tokens_table@.len() && db.password_reset_tokens_table@[k]
            == reset_record;
    proof {
        assert forall|i: int|
            live_reset_token_at(
                db.password_reset_tokens_table@,
                codec::spec_hash_token(payload.token@),
                now,
                i,
            ) implies i == ti by {
            if i != ti {
                assert(db.password_reset_tokens_table@[i].token_hash@
                    != db.password_reset_tokens_table@[ti].token_hash@);
            }
        }
    }
    if now > reset_record.expires_at {
        return Err(
            CompletePasswordResetErrorResponse {
                error: CompletePasswordResetError::InvalidToken,
                validation: None,
            },
        );
    }
    proof {
        assert(live_reset_token_at(
            db.password_reset_tokens_table@,
            codec::spec_hash_token(payload.token@),
            now,
            ti,
        ));
    }
    if !password_check.is_valid() {
        let mut errs: Vec<ValidationFieldError> = Vec::new();
        errs.push(password_check);
        return Err(
            CompletePasswordResetErrorResponse {
                error: CompletePasswordResetError::Validation,
                validation: Some(ValidationErrorData::from_errors(errs)),
            },
        );
    }
    if let Err(_) = db.user_login_table.set_password_by_user_id(
        reset_record.user_id,
        payload.new_password.as_str(),
    ) {
        return Err(
            CompletePasswordResetErrorResponse {
                error: CompletePasswordResetError::Internal,
                validation: None,
            },
        );
    }
    let ghost users_mid = db.user_login_table@;
    db.user_login_table.set_password_reset_flag(reset_record.user_id, false);
    proof {
        if user_login::has_user_id(old(db).user_login_table@, reset_record.user_id) {
            let (j1, h1) = choose|j1: int, h1: String|
                0 <= j1 < old(db).user_login_table@.len() && old(db).user_login_table@[j1].user_id
                    == reset_record.user_id && codec::password_matches(
                    payload.new_password@,
                    h1@,
                ) && users_mid == old(db).user_login_table@.update(
                    j1,
                    (user_login::UserLogin {
                        password: Some(h1),
                        ..old(db).user_login_table@[j1]
                    }),
                );
            assert(user_login::has_user_id(users_mid, reset_record.user_id)) by {
                assert(users_mid[j1].user_id == reset_record.user_id);
            }
            let j2 = choose|j2: int|
                0 <= j2 < users_mid.len() && users_mid[j2].user_id == reset_record.user_id
                    && db.user_login_table@ == users_mid.update(
                    j2,
                    (user_login::UserLogin { password_reset: false, ..users_mid[j2] }),
                );
            assert(j2 == j1) by {
                if j2 != j1 {
                    assert(users_mid[j2].user_id != users_mid[j1].user_id);
                }
            }
            assert(db.user_login_table@ =~= old(db).user_login_table@.update(
                j1,
                (user_login::UserLogin {
                    password: Some(h1),
                    password_reset: false,
                    ..old(db).user_login_table@[j1]
                }),
            ));
        } else {
            assert(!user_login::has_user_id(users_mid, reset_record.user_id)) by {
                assert forall|j: int|
                    0 <= j < users_mid.len() implies users_mid[j].user_id
                    != reset_record.user_id by {
                    assert(old(db).user_login_table@[j].user_id != reset_record.user_id);
                }
            }
        }
    }
    db.password_reset_tokens_table.delete_by_user_id(reset_record.user_id);
    Ok(())
}

} // verus!
