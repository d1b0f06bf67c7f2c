//! Registration: validate the three fields, claim the username and email,
//! hash the password, create the account unverified, give it its data row
//! and issue its verification token. The raw token is returned so the
//! caller can dispatch the verification email; if that dispatch fails, the
//! caller rolls the account back with `DBHandle::delete_user_cascade`, so
//! the username is not left stuck on an unverifiable account. Every failure
//! inside this function rolls its own partial work back: on any error the
//! store reads as if the call never happened.

use vstd::prelude::*;
use crate::codec;
use crate::db::DBHandle;
use crate::db::UserLogin;
use crate::db::UserRole;
use crate::db::email_verification_tokens;
use crate::db::user_data;
use crate::db::user_login;
use crate::api_types::RegisterError;
use crate::api_types::RegisterErrorResponse;
use crate::api_types::RegistrationRequest;
use crate::api_types::ValidationErrorData;
use crate::api_types::ValidationFieldError;

verus! {

/// A registration that awaits its verification email: the new account's id,
/// the address to mail, and the raw verification token to put in the link.
pub struct PendingRegistration {
    pub user_id: i64,
    pub username: String,
    pub email: String,
    pub verification_token: String,
}

/// The field verdicts that failed, in the order they are reported:
/// username, email, password.
pub open spec fn spec_failed_checks(
    u: ValidationFieldError,
    e: ValidationFieldError,
    p: ValidationFieldError,
) -> Seq<ValidationFieldError> {
    let s0: Seq<ValidationFieldError> = if !u.spec_is_valid() {
        seq![u]
    } else {
        Seq::empty()
    };
    let s1: Seq<ValidationFieldError> = if !e.spec_is_valid() {
        s0.push(e)
    } else {
        s0
    };
    if !p.spec_is_valid() {
        s1.push(p)
    } else {
        s1
    }
}

/// Registers an account. The three verdicts come from the field validator
/// outside this crate; registration proceeds only when all three passed.
pub fn register_user(
    db: &mut DBHandle,
    payload: &RegistrationRequest,
    username_check: ValidationFieldError,
    email_check: ValidationFieldError,
    password_check: ValidationFieldError,
    now: i64,
    verification_validity_secs: i64,
) -> (r: Result<PendingRegistration, RegisterErrorResponse>)
    requires
        old(db).wf(),
        0 <= verification_validity_secs,
        now + verification_validity_secs <= i64::MAX,
    ensures
        final(db).wf(),
        final(db).user_sessions_table@ == old(db).user_sessions_table@,
        final(db).password_reset_tokens_table@ == old(db).password_reset_tokens_table@,
        final(db).is_dev == old(db).is_dev,
        r matches Err(_) ==> final(db).user_login_table@ == old(db).user_login_table@ && final(db).user_data_table@ == old(db).user_data_table@ && final(db).email_verification_tokens_table@ == old(db).email_verification_tokens_table@,
        !(username_check.spec_is_valid() && email_check.spec_is_valid()
            && password_check.spec_is_valid()) ==> (r matches Err(e) && e.error
            == RegisterError::Validation && (e.validation matches Some(v) && v.field_errors@
            == spec_failed_checks(username_check, email_check, password_check))),
        (username_check.spec_is_valid() && email_check.spec_is_valid()
            && password_check.spec_is_valid()) && user_login::has_username(
            old(db).user_login_table@,
            payload.username@,
        ) ==> (r matches Err(e) && e.error == RegisterError::UsernameTaken && e.validation
            is None),
        (username_check.spec_is_valid() && email_check.spec_is_valid()
            && password_check.spec_is_valid()) && !user_login::has_username(
            old(db).user_login_table@,
            payload.username@,
        ) && user_login::has_email(old(db).user_login_table@, payload.email@) ==> (r matches Err(
            e,
        ) && e.error == RegisterError::EmailTaken && e.validation is None),
        (username_check.spec_is_valid() && email_check.spec_is_valid()
            && password_check.spec_is_valid()) && !user_login::has_username(
            old(db).user_login_table@,
            payload.username@,
        ) && !user_login::has_email(old(db).user_login_table@, payload.email@) ==> (r is Ok || (r
            matches Err(e) && e.error == RegisterError::Internal && e.validation is None)),
        r matches Ok(p) ==> {
            &&& p.user_id == old(db).user_login_table.spec_next_id()
            &&& p.username@ == payload.username@
            &&& p.email@ == payload.email@
            &&& p.verification_token@.len() == 64
            &&& final(db).user_login_table@.len() == old(db).user_login_table@.len() + 1
            &&& final(db).user_login_table@.take(old(db).user_login_table@.len() as int) == old(db).user_login_table@
            &&& {
                let u = final(db).user_login_table@.last();
                &&& u.user_id == p.user_id
                &&& u.username@ == payload.username@
                &&& u.email@ == payload.email@
                &&& (u.password matches Some(h) && codec::password_matches(payload.password@, h@))
                &&& !u.email_verified
                &&& u.email_verified_at is None
                &&& u.role == UserRole::User
                &&& !u.password_reset
                &&& u.deleted_at is None
            }
            &&& final(db).user_data_table@ == old(db).user_data_table@.push(
                user_data::UserData { user_id: p.user_id, counter: 0 },
            )
            &&& !email_verification_tokens::has_user_row(
                old(db).email_verification_tokens_table@,
                p.user_id,
            ) ==> (final(db).email_verification_tokens_table@.len() == old(db).email_verification_tokens_table@.len() + 1 && final(db).email_verification_tokens_table@.take(
                old(db).email_verification_tokens_table@.len() as int,
            ) == old(db).email_verification_tokens_table@ && {
                let t = final(db).email_verification_tokens_table@.last();
                &&& t.user_id == p.user_id
                &&& t.token_hash@ == codec::spec_hash_token(p.verification_token@)
                &&& t.expires_at == now + verification_validity_secs
                &&& t.created_at == now
            })
            &&& email_verification_tokens::has_user_row(
                old(db).email_verification_tokens_table@,
                p.user_id,
            ) ==> exists|i: int|
                0 <= i < old(db).email_verification_tokens_table@.len() && (#[trigger] old(db).email_verification_tokens_table@[i]).user_id == p.user_id && final(db).email_verification_tokens_table@ == old(db).email_verification_tokens_table@.update(
                    i,
                    final(db).email_verification_tokens_table@[i],
                ) && {
                    let t = final(db).email_verification_tokens_table@[i];
                    &&& t.user_id == p.user_id
                    &&& t.token_hash@ == codec::spec_hash_token(p.verification_token@)
                    &&& t.expires_at == now + verification_validity_secs
                    &&& t.created_at == now
                }
        },
{
    let u_ok = username_check.is_valid();
    let e_ok = email_check.is_valid();
    let p_ok = password_check.is_valid();
    if !u_ok || !e_ok || !p_ok {
        let mut errs: Vec<ValidationFieldError> = Vec::new();
        let ghost u0 = username_check;
        let ghost e0 = email_check;
        let ghost p0 = password_check;
        if !u_ok {
            errs.push(username_check);
        }
        if !e_ok {
            errs.push(email_check);
        }
        if !p_ok {
            errs.push(password_check);
        }
        proof {
            assert(errs@ =~= spec_failed_checks(u0, e0, p0));
        }
        return Err(
            RegisterErrorResponse {
                error: RegisterError::Validation,
                validation: Some(ValidationErrorData::from_errors(errs)),
            },
        );
    }
    if !db.user_login_table.is_username_free(payload.username.as_str()) {
        return Err(
            RegisterErrorResponse { error: RegisterError::UsernameTaken, validation: None },
        );
    }
    if !db.user_login_table.is_email_free(payload.email.as_str()) {
        return Err(RegisterErrorResponse { error: RegisterError::EmailTaken, validation: None });
    }
    let hashed_password = match codec::hash_password(payload.password.as_str()) {
        Ok(h) => h,
        Err(_) => {
            return Err(
                RegisterErrorResponse { error: RegisterError::Internal, validation: None },
            );
        },
    };
    let user_login = UserLogin {
        user_id: 0,
        username: payload.username.clone(),
        email: payload.email.clone(),
        password: Some(hashed_password),
        email_verified: false,
        email_verified_at: None,
        role: UserRole::User,
        password_reset: false,
        deleted_at: None,
    };
    let user_id = match db.user_login_table.new_user(&user_login) {
        Ok(id) => id,
        Err(e) => {
            let code = match e {
                crate::db::StoreError::UsernameTaken => RegisterError::UsernameTaken,
                crate::db::StoreError::EmailTaken => RegisterError::EmailTaken,
                _ => RegisterError::Internal,
            };
            return Err(RegisterErrorResponse { error: code, validation: None });
        },
    };
    let ghost users_mid = db.user_login_table@;
    if let Err(_) = db.user_data_table.insert(user_id) {
        db.user_login_table.delete(payload.username.as_str());
        proof {
            assert(users_mid.drop_last() =~= old(db).user_login_table@);
            assert(users_mid.last().username@ == payload.username@);
            user_login::lemma_remove_absent_username(
                old(db).user_login_table@,
                payload.username@,
            );
        }
        return Err(RegisterErrorResponse { error: RegisterError::Internal, validation: None });
    }
    let ghost data_mid = db.user_data_table@;
    let token = match codec::generate_verification_token() {
        Ok(t) => t,
        Err(_) => {
            db.user_login_table.delete(payload.username.as_str());
            db.user_data_table.delete_by_user_id(user_id);
            proof {
                assert(users_mid.drop_last() =~= old(db).user_login_table@);
                assert(users_mid.last().username@ == payload.username@);
                user_login::lemma_remove_absent_username(
                    old(db).user_login_table@,
                    payload.username@,
                );
                assert(data_mid.drop_last() =~= old(db).user_data_table@);
                assert(data_mid.last().user_id == user_id);
                user_data::lemma_remove_absent(old(db).user_data_table@, user_id);
            }
            return Err(
                RegisterErrorResponse { error: RegisterError::Internal, validation: None },
            );
        },
    };
    let token_hash = codec::hash_token(token.as_str());
    let expires_at = now + verification_validity_secs;
    if let Err(_) = db.email_verification_tokens_table.insert(
        user_id,
        token_hash.as_str(),
        expires_at,
        now,
    ) {
        db.user_login_table.delete(payload.username.as_str());
        db.user_data_table.delete_by_user_id(user_id);
        proof {
            assert(users_mid.drop_last() =~= old(db).user_login_table@);
            assert(users_mid.last().username@ == payload.username@);
            user_login::lemma_remove_absent_username(
                old(db).user_login_table@,
                payload.username@,
            );
            assert(data_mid.drop_last() =~= old(db).user_data_table@);
            assert(data_mid.last().user_id == user_id);
            user_data::lemma_remove_absent(old(db).user_data_table@, user_id);
        }
        return Err(RegisterErrorResponse { error: RegisterError::Internal, validation: None });
    }
    proof {
        assert(db.user_login_table@.take(old(db).user_login_table@.len() as int) =~= old(db).user_login_table@);
        if email_verification_tokens::has_user_row(
            old(db).email_verification_tokens_table@,
            user_id,
        ) {
            let (i, hs) = choose|i: int, hs: String|
                0 <= i < old(db).email_verification_tokens_table@.len() && old(db).email_verification_tokens_table@[i].user_id == user_id && hs@ == token_hash@
                    && db.email_verification_tokens_table@ == old(db).email_verification_tokens_table@.update(
                    i,
                    (email_verification_tokens::EmailVerificationToken {
                        user_id,
                        token_hash: hs,
                        expires_at,
                        created_at: now,
                    }),
                );
            assert(db.email_verification_tokens_table@[i]
                == (email_verification_tokens::EmailVerificationToken {
                user_id,
                token_hash: hs,
                expires_at,
                created_at: now,
            }));
        } else {
            let hs = choose|hs: String|
                hs@ == token_hash@ && db.email_verification_tokens_table@ == old(db).email_verification_tokens_table@.push(
                    (email_verification_tokens::EmailVerificationToken {
                        user_id,
                        token_hash: hs,
                        expires_at,
                        created_at: now,
                    }),
                );
            assert(db.email_verification_tokens_table@.take(
                old(db).email_verification_tokens_table@.len() as int,
            ) =~= old(db).email_verification_tokens_table@);
        }
    }
    Ok(
        PendingRegistration {
            user_id,
            username: payload.username.clone(),
            email: payload.email.clone(),
            verification_token: token,
        },
    )
}

} // verus!
