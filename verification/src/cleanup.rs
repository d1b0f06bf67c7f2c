//! The cleanup sweep. A background task calls `cleanup_tick` on a fixed
//! interval, independent of request traffic: it deletes expired sessions,
//! expired verification tokens — cascading onto accounts that never
//! finished registering — and expired reset tokens. On an in-memory store
//! none of the three steps can fail, so each always runs; a caller driving
//! a remote store schedules the tick and keeps any transport error to
//! itself, since there is no request to surface it to.

use vstd::prelude::*;
use crate::db::DBHandle;
use crate::db::email_verification_tokens;
use crate::db::password_reset_tokens;
use crate::db::user_data;
use crate::db::user_sessions;

verus! {

/// Default seconds between two cleanup ticks.
pub const CLEANUP_INTERVAL_SECONDS: u64 = 3600;

/// An account the sweep purges at `now`: still unverified while its
/// verification token row has lapsed — registration never completed.
pub open spec fn spec_purged_account(
    users: Seq<crate::db::UserLogin>,
    toks: Seq<email_verification_tokens::EmailVerificationToken>,
    now: i64,
    id: i64,
) -> bool {
    exists|j: int|
        0 <= j < users.len() && (#[trigger] users[j]).user_id == id && !users[j].email_verified
            && email_verification_tokens::has_expired_token(toks, id, now)
}

/// One sweep over the whole store at time `now`: expired sessions and
/// expired rows of both token tables are deleted; an account that is still
/// unverified while its verification token lapsed is purged, and — as the
/// schema's foreign keys would — its sessions, reset tokens and data row go
/// with it. Afterwards every session and token row still present is live at
/// `now` and belongs to no purged account; verified accounts all survive.
/// The purged account ids are returned.
pub fn cleanup_tick(db: &mut DBHandle, now: i64) -> (purged: Vec<i64>)
    requires
        old(db).wf(),
    ensures
        final(db).wf(),
        forall|id: i64| #[trigger] purged@.contains(id) <==> spec_purged_account(
            old(db).user_login_table@,
            old(db).email_verification_tokens_table@,
            now,
            id,
        ),
        final(db).user_login_table@ == email_verification_tokens::spec_purge_unverified(
            old(db).user_login_table@,
            old(db).email_verification_tokens_table@,
            now,
        ),
        final(db).email_verification_tokens_table@
            == email_verification_tokens::spec_live_tokens(
            old(db).email_verification_tokens_table@,
            now,
        ),
        final(db).user_sessions_table@ == user_sessions::spec_remove_user_ids(
            user_sessions::spec_live_sessions(old(db).user_sessions_table@, now),
            purged@,
        ),
        final(db).password_reset_tokens_table@ == password_reset_tokens::spec_remove_user_ids(
            password_reset_tokens::spec_live_tokens(old(db).password_reset_tokens_table@, now),
            purged@,
        ),
        final(db).user_data_table@ == user_data::spec_remove_user_ids(
            old(db).user_data_table@,
            purged@,
        ),
        final(db).is_dev == old(db).is_dev,
        forall|i: int|
            0 <= i < final(db).user_sessions_table@.len() ==> (#[trigger] final(db).user_sessions_table@[i]).session_expiry >= now && !purged@.contains(
                final(db).user_sessions_table@[i].user_id,
            ),
        forall|i: int|
            0 <= i < final(db).email_verification_tokens_table@.len() ==> (#[trigger] final(db).email_verification_tokens_table@[i]).expires_at >= now,
        forall|i: int|
            0 <= i < final(db).password_reset_tokens_table@.len() ==> (#[trigger] final(db).password_reset_tokens_table@[i]).expires_at >= now && !purged@.contains(
                final(db).password_reset_tokens_table@[i].user_id,
            ),
        forall|i: int|
            0 <= i < final(db).user_data_table@.len() ==> !purged@.contains(
                (#[trigger] final(db).user_data_table@[i]).user_id,
            ),
{
    let expired = db.email_verification_tokens_table.expired_user_ids(now);
    let purged = db.user_login_table.unverified_among(&expired);
    proof {
        assert forall|id: i64| #[trigger] purged@.contains(id) <==> spec_purged_account(
            db.user_login_table@,
            db.email_verification_tokens_table@,
            now,
            id,
        ) by {}
    }
    db.user_sessions_table.cleanup_expired_sessions(now);
    let users = &mut db.user_login_table;
    db.email_verification_tokens_table.cleanup_expired_tokens(users, now);
    db.password_reset_tokens_table.cleanup_expired_tokens(now);
    db.user_sessions_table.delete_by_user_ids(&purged);
    db.password_reset_tokens_table.delete_by_user_ids(&purged);
    db.user_data_table.delete_by_user_ids(&purged);
    proof {
        user_sessions::lemma_live_sessions_wf(old(db).user_sessions_table@, now);
        user_sessions::lemma_remove_user_ids_wf(
            user_sessions::spec_live_sessions(old(db).user_sessions_table@, now),
            purged@,
        );
        email_verification_tokens::lemma_live_tokens_wf(
            old(db).email_verification_tokens_table@,
            now,
        );
        password_reset_tokens::lemma_live_tokens_wf(old(db).password_reset_tokens_table@, now);
        password_reset_tokens::lemma_remove_user_ids_wf(
            password_reset_tokens::spec_live_tokens(old(db).password_reset_tokens_table@, now),
            purged@,
        );
        user_data::lemma_remove_user_ids_wf(old(db).user_data_table@, purged@);
    }
    purged
}

/// The cascade never touches a verified account: whatever stale token rows
/// remain, every verified account of the old table stands in the swept one.
pub proof fn lemma_sweep_keeps_verified(
    users: Seq<crate::db::UserLogin>,
    toks: Seq<email_verification_tokens::EmailVerificationToken>,
    now: i64,
)
    ensures
        forall|i: int|
            0 <= i < users.len() && (#[trigger] users[i]).email_verified
                ==> email_verification_tokens::spec_purge_unverified(users, toks, now).contains(
                users[i],
            ),
    decreases users.len(),
{
    if users.len() > 0 {
        let r = email_verification_tokens::spec_purge_unverified(users, toks, now);
        let rest = email_verification_tokens::spec_purge_unverified(users.drop_last(), toks, now);
        lemma_sweep_keeps_verified(users.drop_last(), toks, now);
        assert forall|i: int|
            0 <= i < users.len() && (#[trigger] users[i]).email_verified implies r.contains(
            users[i],
        ) by {
            if i < users.len() - 1 {
                assert(users.drop_last()[i] == users[i]);
                assert(rest.contains(users[i]));
                let k = choose|k: int| 0 <= k < rest.len() && rest[k] == users[i];
                if !users.last().email_verified && email_verification_tokens::has_expired_token(
                    toks,
                    users.last().user_id,
                    now,
                ) {
                    assert(r[k] == users[i]);
                } else {
                    assert(r[k] == users[i]);
                }
            } else {
                assert(r.last() == users[i]);
            }
        }
    }
}

} // verus!
