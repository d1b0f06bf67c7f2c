//! The password-reset token table: the same single-slot-per-account
//! contract as the email-verification table, with a different downstream
//! action — consuming a reset token lets the account set a new password.
//! Its sweep deletes only expired token rows and never touches accounts.

use vstd::prelude::*;
use crate::codec;
use crate::db::StoreError;
use crate::db::contains_id;
use crate::db::str_eq;

verus! {

/// One pending password-reset token.
pub struct PasswordResetToken {
    pub user_id: i64,
    /// Lookup hash of the raw token; the raw token is never stored.
    pub token_hash: String,
    /// Unix seconds after which the token is dead.
    pub expires_at: i64,
    /// Unix seconds of issuance.
    pub created_at: i64,
}

impl Clone for PasswordResetToken {
    fn clone(&self) -> (r: Self)
        ensures
            r == *self,
    {
        PasswordResetToken {
            user_id: self.user_id,
            token_hash: self.token_hash.clone(),
            expires_at: self.expires_at,
            created_at: self.created_at,
        }
    }
}

/// Some row belongs to this account.
pub open spec fn has_user_row(s: Seq<PasswordResetToken>, user_id: i64) -> bool {
    exists|i: int| 0 <= i < s.len() && s[i].user_id == user_id
}

/// Some row holds this lookup hash.
pub open spec fn has_hash(s: Seq<PasswordResetToken>, hash: Seq<char>) -> bool {
    exists|i: int| 0 <= i < s.len() && s[i].token_hash@ == hash
}

/// A row of a different account holds this hash.
pub open spec fn hash_taken_by_other(
    s: Seq<PasswordResetToken>,
    hash: Seq<char>,
    user_id: i64,
) -> bool {
    exists|i: int| 0 <= i < s.len() && s[i].token_hash@ == hash && s[i].user_id != user_id
}

/// The table without the rows of this account, in order.
pub open spec fn spec_remove_by_user_id(
    s: Seq<PasswordResetToken>,
    user_id: i64,
) -> Seq<PasswordResetToken>
    decreases s.len(),
{
    if s.len() == 0 {
        Seq::empty()
    } else {
        let rest = spec_remove_by_user_id(s.drop_last(), user_id);
        if s.last().user_id == user_id {
            rest
        } else {
            rest.push(s.last())
        }
    }
}

/// The rows still alive at `now`.
pub open spec fn spec_live_tokens(s: Seq<PasswordResetToken>, now: i64) -> Seq<PasswordResetToken>
    decreases s.len(),
{
    if s.len() == 0 {
        Seq::empty()
    } else {
        let rest = spec_live_tokens(s.drop_last(), now);
        if s.last().expires_at < now {
            rest
        } else {
            rest.push(s.last())
        }
    }
}

/// Account ids and hashes pairwise distinct.
pub open spec fn token_rows_wf(s: Seq<PasswordResetToken>) -> bool {
    &&& forall|i: int, j: int| 0 <= i < j < s.len() ==> s[i].user_id != s[j].user_id
    &&& forall|i: int, j: int| 0 <= i < j < s.len() ==> s[i].token_hash@ != s[j].token_hash@
}

/// Dropping an account's rows keeps the key constraints and keeps only rows
/// of other accounts.
pub proof fn lemma_remove_by_user_id_wf(s: Seq<PasswordResetToken>, user_id: i64)
    requires
        token_rows_wf(s),
    ensures
        token_rows_wf(spec_remove_by_user_id(s, user_id)),
        forall|i: int|
            0 <= i < spec_remove_by_user_id(s, user_id).len() ==> s.contains(
                #[trigger] spec_remove_by_user_id(s, user_id)[i],
            ) && spec_remove_by_user_id(s, user_id)[i].user_id != user_id,
        !has_user_row(spec_remove_by_user_id(s, user_id), user_id),
    decreases s.len(),
{
    if s.len() > 0 {
        let r = spec_remove_by_user_id(s, user_id);
        let rest = spec_remove_by_user_id(s.drop_last(), user_id);
        lemma_remove_by_user_id_wf(s.drop_last(), user_id);
        assert forall|i: int| 0 <= i < rest.len() implies s.contains(rest[i]) by {
            assert(s.drop_last().contains(rest[i]));
            let k = choose|k: int| 0 <= k < s.drop_last().len() && s.drop_last()[k] == rest[i];
            assert(s[k] == rest[i]);
        }
        if s.last().user_id != user_id {
            assert forall|i: int, j: int| 0 <= i < j < r.len() implies r[i].user_id != r[j].user_id
                && r[i].token_hash@ != r[j].token_hash@ by {
                if j == r.len() - 1 {
                    assert(s.drop_last().contains(rest[i]));
                    let k = choose|k: int|
                        0 <= k < s.drop_last().len() && s.drop_last()[k] == rest[i];
                    assert(s[k] == r[i] && s[s.len() - 1] == r[j]);
                }
            }
        }
    }
}

/// Dropping the expired rows keeps the key constraints and keeps exactly
/// the live rows.
pub proof fn lemma_live_tokens_wf(s: Seq<PasswordResetToken>, now: i64)
    requires
        token_rows_wf(s),
    ensures
        token_rows_wf(spec_live_tokens(s, now)),
        forall|i: int|
            0 <= i < spec_live_tokens(s, now).len() ==> s.contains(
                #[trigger] spec_live_tokens(s, now)[i],
            ) && spec_live_tokens(s, now)[i].expires_at >= now,
    decreases s.len(),
{
    if s.len() > 0 {
        let r = spec_live_tokens(s, now);
        let rest = spec_live_tokens(s.drop_last(), now);
        lemma_live_tokens_wf(s.drop_last(), now);
        assert forall|i: int| 0 <= i < rest.len() implies s.contains(rest[i]) by {
            assert(s.drop_last().contains(rest[i]));
            let k = choose|k: int| 0 <= k < s.drop_last().len() && s.drop_last()[k] == rest[i];
            assert(s[k] == rest[i]);
        }
        if s.last().expires_at >= now {
            assert forall|i: int, j: int| 0 <= i < j < r.len() implies r[i].user_id != r[j].user_id
                && r[i].token_hash@ != r[j].token_hash@ by {
                if j == r.len() - 1 {
                    assert(s.drop_last().contains(rest[i]));
                    let k = choose|k: int|
                        0 <= k < s.drop_last().len() && s.drop_last()[k] == rest[i];
                    assert(s[k] == r[i] && s[s.len() - 1] == r[j]);
                }
            }
        }
    }
}


/// Consumption is at-most-once: deleting the consumed row's slot leaves no
/// row holding the consumed hash, so by `consume`'s contract a second
/// consume of the same token returns `NotFound`.
pub proof fn lemma_consume_at_most_once(s: Seq<PasswordResetToken>, i: int)
    requires
        token_rows_wf(s),
        0 <= i < s.len(),
    ensures
        !has_hash(spec_remove_by_user_id(s, s[i].user_id), s[i].token_hash@),
{
    lemma_remove_by_user_id_wf(s, s[i].user_id);
    let r = spec_remove_by_user_id(s, s[i].user_id);
    assert forall|j: int| 0 <= j < r.len() implies r[j].token_hash@ != s[i].token_hash@ by {
        assert(s.contains(r[j]));
        let k = choose|k: int| 0 <= k < s.len() && s[k] == r[j];
        if k != i {
            assert(s[k].token_hash@ != s[i].token_hash@);
        }
    }
}

/// Issuing a new token invalidates the outstanding one: after the
/// account's slot is overwritten with a fresh hash, no row holds the old
/// hash, so by `consume`'s contract the old token returns `NotFound`. The
/// one input left out is a fresh token whose hash equals the old one,
/// which random generation makes vanishingly unlikely but not impossible.
pub proof fn lemma_issue_invalidates_prior(
    pre: Seq<PasswordResetToken>,
    post: Seq<PasswordResetToken>,
    i: int,
    new_hash: Seq<char>,
)
    requires
        token_rows_wf(pre),
        0 <= i < pre.len(),
        post == pre.update(i, post[i]),
        post[i].token_hash@ == new_hash,
        new_hash != pre[i].token_hash@,
    ensures
        !has_hash(post, pre[i].token_hash@),
{
    assert forall|j: int| 0 <= j < post.len() implies post[j].token_hash@
        != pre[i].token_hash@ by {
        if j != i {
            assert(post[j] == pre[j]);
            assert(pre[j].token_hash@ != pre[i].token_hash@);
        }
    }
}


/// The table without the rows of any account in `ids`, in order: the
/// cascade of a bulk account purge.
pub open spec fn spec_remove_user_ids(s: Seq<PasswordResetToken>, ids: Seq<i64>) -> Seq<PasswordResetToken>
    decreases s.len(),
{
    if s.len() == 0 {
        Seq::empty()
    } else {
        let rest = spec_remove_user_ids(s.drop_last(), ids);
        if ids.contains(s.last().user_id) {
            rest
        } else {
            rest.push(s.last())
        }
    }
}

/// Dropping the rows of the accounts in `ids` keeps the key constraints and
/// keeps only rows of other accounts.
pub proof fn lemma_remove_user_ids_wf(s: Seq<PasswordResetToken>, ids: Seq<i64>)
    requires
        token_rows_wf(s),
    ensures
        token_rows_wf(spec_remove_user_ids(s, ids)),
        forall|i: int|
            0 <= i < spec_remove_user_ids(s, ids).len() ==> s.contains(
                #[trigger] spec_remove_user_ids(s, ids)[i],
            ) && !ids.contains(spec_remove_user_ids(s, ids)[i].user_id),
    decreases s.len(),
{
    if s.len() > 0 {
        let r = spec_remove_user_ids(s, ids);
        let rest = spec_remove_user_ids(s.drop_last(), ids);
        lemma_remove_user_ids_wf(s.drop_last(), ids);
        assert forall|i: int| 0 <= i < rest.len() implies s.contains(rest[i]) by {
            assert(s.drop_last().contains(rest[i]));
            let k = choose|k: int| 0 <= k < s.drop_last().len() && s.drop_last()[k] == rest[i];
            assert(s[k] == rest[i]);
        }
        if !ids.contains(s.last().user_id) {
            assert forall|i: int, j: int| 0 <= i < j < r.len() implies r[i].user_id != r[j].user_id
                && r[i].token_hash@ != r[j].token_hash@ by {
                if j == r.len() - 1 {
                    assert(s.drop_last().contains(rest[i]));
                    let k = choose|k: int|
                        0 <= k < s.drop_last().len() && s.drop_last()[k] == rest[i];
                    assert(s[k] == r[i] && s[s.len() - 1] == r[j]);
                }
            }
        }
    }
}

/// The password-reset token table.
pub struct PasswordResetTokensTable {
    rows: Vec<PasswordResetToken>,
}

impl View for PasswordResetTokensTable {
    type V = Seq<PasswordResetToken>;

    closed spec fn view(&self) -> Seq<PasswordResetToken> {
        self.rows@
    }
}

impl PasswordResetTokensTable {
    /// The key constraints: one slot per account, one row per hash.
    pub open spec fn wf(&self) -> bool {
        token_rows_wf(self@)
    }

    /// An empty table.
    pub fn new() -> (r: PasswordResetTokensTable)
        ensures
            r.wf(),
            r@.len() == 0,
    {
        PasswordResetTokensTable { rows: Vec::new() }
    }


    /// How many rows the table holds.
    pub fn len(&self) -> (n: usize)
        ensures
            n == self@.len(),
    {
        self.rows.len()
    }

    /// Index of this account's row, if any.
    fn find_by_user_id(&self, user_id: i64) -> (r: Option<usize>)
        ensures
            match r {
                Some(i) => i < self@.len() && self@[i as int].user_id == user_id,
                None => !has_user_row(self@, user_id),
            },
    {
        let n = self.rows.len();
        let mut i: usize = 0;
        while i < n
            invariant
                n == self@.len(),
                i <= n,
                forall|j: int| 0 <= j < i ==> self@[j].user_id != user_id,
            decreases n - i,
        {
            if self.rows[i].user_id == user_id {
                return Some(i);
            }
            i = i + 1;
        }
        None
    }

    /// Index of the row holding this hash, if any.
    fn find_by_hash(&self, token_hash: &str) -> (r: Option<usize>)
        ensures
            match r {
                Some(i) => i < self@.len() && self@[i as int].token_hash@ == token_hash@,
                None => !has_hash(self@, token_hash@),
            },
    {
        let n = self.rows.len();
        let mut i: usize = 0;
        while i < n
            invariant
                n == self@.len(),
                i <= n,
                forall|j: int| 0 <= j < i ==> self@[j].token_hash@ != token_hash@,
            decreases n - i,
        {
            if str_eq(self.rows[i].token_hash.as_str(), token_hash) {
                return Some(i);
            }
            i = i + 1;
        }
        None
    }

    /// Upserts this account's single slot: any outstanding token row is
    /// replaced, which invalidates the prior token. A hash already held by
    /// another account breaks the lookup key and is refused.
    pub fn insert(&mut self, user_id: i64, token_hash: &str, expires_at: i64, now: i64) -> (r:
        Result<(), StoreError>)
        requires
            old(self).wf(),
        ensures
            final(self).wf(),
            hash_taken_by_other(old(self)@, token_hash@, user_id) ==> (r == Err::<(), StoreError>(
                StoreError::Internal,
            ) && final(self)@ == old(self)@),
            !hash_taken_by_other(old(self)@, token_hash@, user_id) && has_user_row(
                old(self)@,
                user_id,
            ) ==> r == Ok::<(), StoreError>(()) && exists|i: int, h: String|
                0 <= i < old(self)@.len() && old(self)@[i].user_id == user_id && h@ == token_hash@
                    && final(self)@ == old(self)@.update(
                    i,
                    (PasswordResetToken { user_id, token_hash: h, expires_at, created_at: now }),
                ),
            !hash_taken_by_other(old(self)@, token_hash@, user_id) && !has_user_row(
                old(self)@,
                user_id,
            ) ==> r == Ok::<(), StoreError>(()) && exists|h: String|
                h@ == token_hash@ && final(self)@ == old(self)@.push(
                    (PasswordResetToken { user_id, token_hash: h, expires_at, created_at: now }),
                ),
    {
        match self.find_by_hash(token_hash) {
            Some(j) => {
                if self.rows[j].user_id != user_id {
                    proof {
                        assert(0 <= (j as int) < self@.len() && self@[j as int].token_hash@
                            == token_hash@ && self@[j as int].user_id != user_id);
                    }
                    return Err(StoreError::Internal);
                }
                proof {
                    assert forall|i: int|
                        0 <= i < self@.len() && self@[i].token_hash@
                            == token_hash@ implies self@[i].user_id == user_id by {
                        if i != j as int {
                            assert(self@[i].token_hash@ != self@[j as int].token_hash@);
                        }
                    }
                }
            },
            None => {},
        }
        let th = token_hash.to_owned();
        let ghost thg = th;
        let row = PasswordResetToken { user_id, token_hash: th, expires_at, created_at: now };
        match self.find_by_user_id(user_id) {
            Some(i) => {
                self.rows[i] = row;
                proof {
                    assert(0 <= (i as int) < old(self)@.len() && old(self)@[i as int].user_id
                        == user_id && thg@ == token_hash@ && self@ == old(self)@.update(
                        i as int,
                        (PasswordResetToken {
                            user_id,
                            token_hash: thg,
                            expires_at,
                            created_at: now,
                        }),
                    ));
                }
            },
            None => {
                self.rows.push(row);
                proof {
                    assert(thg@ == token_hash@ && self@ == old(self)@.push(
                        (PasswordResetToken {
                            user_id,
                            token_hash: thg,
                            expires_at,
                            created_at: now,
                        }),
                    ));
                }
            },
        }
        Ok(())
    }

    /// The row holding this hash, or `NotFound`.
    pub fn get_by_token_hash(&self, token_hash: &str) -> (r: Result<
        PasswordResetToken,
        StoreError,
    >)
        ensures
            match r {
                Ok(row) => self@.contains(row) && row.token_hash@ == token_hash@,
                Err(e) => e == StoreError::NotFound && !has_hash(self@, token_hash@),
            },
    {
        match self.find_by_hash(token_hash) {
            Some(i) => {
                let row = self.rows[i].clone();
                proof {
                    assert(self@[i as int] == row);
                }
                Ok(row)
            },
            None => Err(StoreError::NotFound),
        }
    }

    /// Deletes this account's slot; a no-op when empty.
    pub fn delete_by_user_id(&mut self, user_id: i64)
        requires
            old(self).wf(),
        ensures
            final(self).wf(),
            final(self)@ == spec_remove_by_user_id(old(self)@, user_id),
            !has_user_row(final(self)@, user_id),
    {
        let n = self.rows.len();
        let mut kept: Vec<PasswordResetToken> = Vec::new();
        let mut i: usize = 0;
        while i < n
            invariant
                self == old(self),
                n == self@.len(),
                i <= n,
                kept@ == spec_remove_by_user_id(self@.take(i as int), user_id),
            decreases n - i,
        {
            if self.rows[i].user_id != user_id {
                let row = self.rows[i].clone();
                kept.push(row);
            }
            proof {
                assert(self@.take(i + 1).drop_last() =~= self@.take(i as int));
                assert(self@.take(i + 1).last() == self@[i as int]);
            }
            i = i + 1;
        }
        proof {
            assert(self@.take(n as int) =~= self@);
        }
        self.rows = kept;
        proof {
            lemma_remove_by_user_id_wf(old(self)@, user_id);
        }
    }

    /// Issues a fresh reset token for this account, replacing any
    /// outstanding slot, and returns the raw token.
    pub fn issue(&mut self, user_id: i64, now: i64, validity_secs: i64) -> (r: Result<
        String,
        StoreError,
    >)
        requires
            old(self).wf(),
            0 <= validity_secs,
            now + validity_secs <= i64::MAX,
        ensures
            final(self).wf(),
            r matches Err(e) ==> final(self)@ == old(self)@ && e == StoreError::Internal,
            r matches Ok(tok) ==> tok@.len() == 64 && {
                let h = codec::spec_hash_token(tok@);
                &&& has_user_row(old(self)@, user_id) ==> exists|i: int|
                    0 <= i < old(self)@.len() && (#[trigger] old(self)@[i]).user_id == user_id
                        && final(self)@ == old(self)@.update(i, final(self)@[i])
                        && final(self)@[i].user_id == user_id && final(self)@[i].token_hash@ == h
                        && final(self)@[i].expires_at == now + validity_secs
                        && final(self)@[i].created_at == now
                &&& !has_user_row(old(self)@, user_id) ==> (final(self)@.len() == old(self)@.len()
                    + 1 && final(self)@.take(old(self)@.len() as int) == old(self)@ && final(self)@.last().user_id == user_id && final(self)@.last().token_hash@ == h && final(self)@.last().expires_at == now + validity_secs && final(self)@.last().created_at
                    == now)
            },
    {
        let raw = match codec::generate_verification_token() {
            Ok(t) => t,
            Err(_) => {
                return Err(StoreError::Internal);
            },
        };
        let hash = codec::hash_token(raw.as_str());
        let expires_at = now + validity_secs;
        match self.insert(user_id, hash.as_str(), expires_at, now) {
            Ok(()) => {
                proof {
                    if has_user_row(old(self)@, user_id) {
                        let (i, hs) = choose|i: int, hs: String|
                            0 <= i < old(self)@.len() && old(self)@[i].user_id == user_id && hs@
                                == hash@ && self@ == old(self)@.update(
                                i,
                                (PasswordResetToken {
                                    user_id,
                                    token_hash: hs,
                                    expires_at,
                                    created_at: now,
                                }),
                            );
                        assert(self@[i] == (PasswordResetToken {
                            user_id,
                            token_hash: hs,
                            expires_at,
                            created_at: now,
                        }));
                    } else {
                        let hs = choose|hs: String|
                            hs@ == hash@ && self@ == old(self)@.push(
                                (PasswordResetToken {
                                    user_id,
                                    token_hash: hs,
                                    expires_at,
                                    created_at: now,
                                }),
                            );
                        assert(self@.take(old(self)@.len() as int) =~= old(self)@);
                        assert(self@.last() == (PasswordResetToken {
                            user_id,
                            token_hash: hs,
                            expires_at,
                            created_at: now,
                        }));
                    }
                }
                Ok(raw)
            },
            Err(e) => Err(e),
        }
    }

    /// Consumes a raw reset token: hashes it, and when a live row holds that
    /// hash, deletes the row and returns the owning account. An absent row
    /// and an expired row give the same `NotFound`. Consumption is
    /// destructive: a token satisfies at most one consume call.
    pub fn consume(&mut self, raw_token: &str, now: i64) -> (r: Result<i64, StoreError>)
        requires
            old(self).wf(),
        ensures
            final(self).wf(),
            r matches Err(e) ==> e == StoreError::NotFound && final(self)@ == old(self)@,
            r matches Err(_) <==> !(exists|i: int|
                0 <= i < old(self)@.len() && old(self)@[i].token_hash@ == codec::spec_hash_token(
                    raw_token@,
                ) && old(self)@[i].expires_at >= now),
            r matches Ok(id) ==> exists|i: int|
                0 <= i < old(self)@.len() && old(self)@[i].token_hash@ == codec::spec_hash_token(
                    raw_token@,
                ) && old(self)@[i].expires_at >= now && old(self)@[i].user_id == id && final(self)@
                    == spec_remove_by_user_id(old(self)@, id),
    {
        let hash = codec::hash_token(raw_token);
        match self.find_by_hash(hash.as_str()) {
            Some(i) => {
                if self.rows[i].expires_at < now {
                    proof {
                        assert forall|j: int|
                            0 <= j < self@.len() && self@[j].token_hash@ == codec::spec_hash_token(
                                raw_token@,
                            ) implies self@[j].expires_at < now by {
                            if j != i as int {
                                assert(self@[j].token_hash@ != self@[i as int].token_hash@);
                            }
                        }
                    }
                    return Err(StoreError::NotFound);
                }
                let id = self.rows[i].user_id;
                proof {
                    assert(0 <= (i as int) < self@.len() && self@[i as int].token_hash@
                        == codec::spec_hash_token(raw_token@) && self@[i as int].expires_at >= now
                        && self@[i as int].user_id == id);
                }
                self.delete_by_user_id(id);
                Ok(id)
            },
            None => Err(StoreError::NotFound),
        }
    }

    /// Bulk-deletes every token row whose expiry lies before `now`. Unlike
    /// the email-verification sweep, accounts are never touched.
    pub fn cleanup_expired_tokens(&mut self, now: i64)
        requires
            old(self).wf(),
        ensures
            final(self).wf(),
            final(self)@ == spec_live_tokens(old(self)@, now),
            forall|i: int| 0 <= i < final(self)@.len() ==> final(self)@[i].expires_at >= now,
    {
        let n = self.rows.len();
        let mut kept: Vec<PasswordResetToken> = Vec::new();
        let mut i: usize = 0;
        while i < n
            invariant
                self == old(self),
                n == self@.len(),
                i <= n,
                kept@ == spec_live_tokens(self@.take(i as int), now),
            decreases n - i,
        {
            if !(self.rows[i].expires_at < now) {
                let row = self.rows[i].clone();
                kept.push(row);
            }
            proof {
                assert(self@.take(i + 1).drop_last() =~= self@.take(i as int));
                assert(self@.take(i + 1).last() == self@[i as int]);
            }
            i = i + 1;
        }
        proof {
            assert(self@.take(n as int) =~= self@);
        }
        self.rows = kept;
        proof {
            lemma_live_tokens_wf(old(self)@, now);
        }
    }

    /// Deletes every row of every account in `ids`: the cascade the cleanup
    /// sweep runs after purging the accounts themselves.
    pub fn delete_by_user_ids(&mut self, ids: &Vec<i64>)
        requires
            old(self).wf(),
        ensures
            final(self).wf(),
            final(self)@ == spec_remove_user_ids(old(self)@, ids@),
            forall|i: int|
                0 <= i < final(self)@.len() ==> !ids@.contains(
                    (#[trigger] final(self)@[i]).user_id,
                ),
    {
        let n = self.rows.len();
        let mut kept: Vec<PasswordResetToken> = Vec::new();
        let mut i: usize = 0;
        while i < n
            invariant
                self == old(self),
                n == self@.len(),
                i <= n,
                kept@ == spec_remove_user_ids(self@.take(i as int), ids@),
            decreases n - i,
        {
            if !contains_id(ids, self.rows[i].user_id) {
                let row = self.rows[i].clone();
                kept.push(row);
            }
            proof {
                assert(self@.take(i + 1).drop_last() =~= self@.take(i as int));
                assert(self@.take(i + 1).last() == self@[i as int]);
            }
            i = i + 1;
        }
        proof {
            assert(self@.take(n as int) =~= self@);
        }
        self.rows = kept;
        proof {
            lemma_remove_user_ids_wf(old(self)@, ids@);
        }
    }
}

} // verus!
