//! Email verification: hash the submitted token, find the pending row,
//! refuse anything absent, expired or empty as the same `InvalidToken`,
//! then flag the account verified and burn the token. Verifying an already
//! verified account is an idempotent success.

use vstd::prelude::*;
use crate::codec;
use crate::db::DBHandle;
use crate::db::email_verification_tokens;
use crate::db::user_login;
use crate::api_types::EmailVerificationRequest;
use crate::api_types::VerifyEmailError;
use crate::api_types::VerifyEmailErrorResponse;

verus! {

/// A live token row holds this hash at `now`.
pub open spec fn live_token_at(
    toks: Seq<email_verification_tokens::EmailVerificationToken>,
    hash: Seq<char>,
    now: i64,
    i: int,
) -> bool {
    0 <= i < toks.len() && toks[i].token_hash@ == hash && toks[i].expires_at >= now
}

/// Consumes a verification token and flags its account verified. An empty
/// token, an unknown hash and an expired row all give the same
/// `InvalidToken`; a live row whose account vanished is an internal fault.
pub fn verify_email(db: &mut DBHandle, payload: &EmailVerificationRequest, now: i64) -> (r: Result<
    (),
    VerifyEmailErrorResponse,
>)
    requires
        old(db).wf(),
    ensures
        final(db).wf(),
        final(db).user_sessions_table@ == old(db).user_sessions_table@,
        final(db).password_reset_tokens_table@ == old(db).password_reset_tokens_table@,
        final(db).user_data_table@ == old(db).user_data_table@,
        final(db).is_dev == old(db).is_dev,
        r matches Err(_) ==> final(db).user_login_table@ == old(db).user_login_table@ && final(db).email_verification_tokens_table@ == old(db).email_verification_tokens_table@,
        payload.token@.len() == 0 ==> r == Err::<(), VerifyEmailErrorResponse>(
            VerifyEmailErrorResponse { error: VerifyEmailError::InvalidToken },
        ),
        payload.token@.len() > 0 && !(exists|i: int|
            live_token_at(
                old(db).email_verification_tokens_table@,
                codec::spec_hash_token(payload.token@),
                now,
                i,
            )) ==> r == Err::<(), VerifyEmailErrorResponse>(
            VerifyEmailErrorResponse { error: VerifyEmailError::InvalidToken },
        ),
        payload.token@.len() > 0 ==> forall|i: int|
            (live_token_at(
                old(db).email_verification_tokens_table@,
                codec::spec_hash_token(payload.token@),
                now,
                i,
            ) && !user_login::has_user_id(
                old(db).user_login_table@,
                old(db).email_verification_tokens_table@[i].user_id,
            )) ==> r == Err::<(), VerifyEmailErrorResponse>(
                VerifyEmailErrorResponse { error: VerifyEmailError::Internal },
            ),
        payload.token@.len() > 0 ==> forall|i: int, j: int|
            #![trigger old(db).email_verification_tokens_table@[i], old(db).user_login_table@[j]]
            (live_token_at(
                old(db).email_verification_tokens_table@,
                codec::spec_hash_token(payload.token@),
                now,
                i,
            ) && 0 <= j < old(db).user_login_table@.len() && old(db).user_login_table@[j].user_id
                == old(db).email_verification_tokens_table@[i].user_id && old(
                db,
            ).user_login_table@[j].email_verified) ==> (r is Ok && final(db).user_login_table@
                == old(db).user_login_table@ && final(db).email_verification_tokens_table@ == old(
                db,
            ).email_verification_tokens_table@),
        payload.token@.len() > 0 ==> forall|i: int, j: int|
            #![trigger old(db).email_verification_tokens_table@[i], old(db).user_login_table@[j]]
            (live_token_at(
                old(db).email_verification_tokens_table@,
                codec::spec_hash_token(payload.token@),
                now,
                i,
            ) && 0 <= j < old(db).user_login_table@.len() && old(db).user_login_table@[j].user_id
                == old(db).email_verification_tokens_table@[i].user_id && !old(
                db,
            ).user_login_table@[j].email_verified) ==> (r is Ok && final(db).user_login_table@
                == old(db).user_login_table@.update(
                j,
                (user_login::UserLogin {
                    email_verified: true,
                    email_verified_at: Some(now),
                    ..old(db).user_login_table@[j]
                }),
            ) && final(db).email_verification_tokens_table@
                == email_verification_tokens::spec_remove_by_user_id(
                old(db).email_verification_tokens_table@,
                old(db).user_login_table@[j].user_id,
            )),
{
    if payload.token.as_str().is_empty() {
        return Err(VerifyEmailErrorResponse { error: VerifyEmailError::InvalidToken });
    }
    let token_hash = codec::hash_token(payload.token.as_str());
    let token_record = match db.email_verification_tokens_table.get_by_token_hash(
        token_hash.as_str(),
    ) {
        Ok(rec) => rec,
        Err(_) => {
            return Err(VerifyEmailErrorResponse { error: VerifyEmailError::InvalidToken });
        },
    };
    let ghost ti = choose|k: int|
        0 <= k < db.email_verification_tokens_table@.len()
            && db.email_verification_tokens_table@[k] == token_record;
    proof {
        assert forall|i: int|
            live_token_at(
                db.email_verification_tokens_table@,
                codec::spec_hash_token(payload.token@),
                now,
                i,
            ) implies i == ti by {
            if i != ti {
                assert(db.email_verification_tokens_table@[i].token_hash@
                    != db.email_verification_tokens_table@[ti].token_hash@);
            }
        }
    }
    if now > token_record.expires_at {
        return Err(VerifyEmailErrorResponse { error: VerifyEmailError::InvalidToken });
    }
    proof {
        assert(live_token_at(
            db.email_verification_tokens_table@,
            codec::spec_hash_token(payload.token@),
            now,
            ti,
        ));
    }
    let user = match db.user_login_table.get_by_user_id(token_record.user_id) {
        Ok(u) => u,
        Err(_) => {
            return Err(VerifyEmailErrorResponse { error: VerifyEmailError::Internal });
        },
    };
    let ghost uj = choose|k: int|
        0 <= k < db.user_login_table@.len() && db.user_login_table@[k] == user;
    proof {
        assert forall|j: int|
            (0 <= j < db.user_login_table@.len() && db.user_login_table@[j].user_id
                == token_record.user_id) implies j == uj by {
            if j != uj {
                assert(db.user_login_table@[j].user_id != db.user_login_table@[uj].user_id);
            }
        }
    }
    if user.email_verified {
        return Ok(());
    }
    db.user_login_table.mark_email_verified(token_record.user_id, now);
    proof {
        assert(user_login::has_user_id(old(db).user_login_table@, token_record.user_id)) by {
            assert(old(db).user_login_table@[uj].user_id == token_record.user_id);
        }
        let j2 = choose|j2: int|
            0 <= j2 < old(db).user_login_table@.len() && old(db).user_login_table@[j2].user_id
                == token_record.user_id && db.user_login_table@ == old(db).user_login_table@.update(
                j2,
                (user_login::UserLogin {
                    email_verified: true,
                    email_verified_at: Some(now),
                    ..old(db).user_login_table@[j2]
                }),
            );
        assert(j2 == uj);
    }
    db.email_verification_tokens_table.delete_by_user_id(token_record.user_id);
    Ok(())
}

} // verus!
