//! The session table: one row per live session, keyed by the secret-derived
//! lookup hash. The raw session token never touches this table; a row can be
//! found only by hashing the token the client presented.

use vstd::prelude::*;
use crate::codec;
use crate::db::StoreError;
use crate::db::contains_id;
use crate::db::str_eq;

verus! {

/// One session row.
pub struct UserSession {
    pub user_id: i64,
    /// Non-secret display id for admin and debug listings.
    pub session_id: String,
    /// Lookup hash of the raw session token; the table's primary key.
    pub session_hash: String,
    /// Unix seconds after which the session is dead.
    pub session_expiry: i64,
    /// Unix seconds of issuance.
    pub session_created_at: i64,
}

impl Clone for UserSession {
    fn clone(&self) -> (r: Self)
        ensures
            r == *self,
    {
        UserSession {
            user_id: self.user_id,
            session_id: self.session_id.clone(),
            session_hash: self.session_hash.clone(),
            session_expiry: self.session_expiry,
            session_created_at: self.session_created_at,
        }
    }
}

/// Some row holds this lookup hash.
pub open spec fn has_hash(s: Seq<UserSession>, hash: Seq<char>) -> bool {
    exists|i: int| 0 <= i < s.len() && s[i].session_hash@ == hash
}

/// The table without the rows of this account, in order.
pub open spec fn spec_remove_by_user_id(s: Seq<UserSession>, user_id: i64) -> Seq<UserSession>
    decreases s.len(),
{
    if s.len() == 0 {
        Seq::empty()
    } else {
        let rest = spec_remove_by_user_id(s.drop_last(), user_id);
        if s.last().user_id == user_id {
            rest
        } else {
            rest.push(s.last())
        }
    }
}

/// The table without the rows holding this hash, in order.
pub open spec fn spec_remove_by_hash(s: Seq<UserSession>, hash: Seq<char>) -> Seq<UserSession>
    decreases s.len(),
{
    if s.len() == 0 {
        Seq::empty()
    } else {
        let rest = spec_remove_by_hash(s.drop_last(), hash);
        if s.last().session_hash@ == hash {
            rest
        } else {
            rest.push(s.last())
        }
    }
}

/// The rows still alive at `now`: expiry not yet passed.
pub open spec fn spec_live_sessions(s: Seq<UserSession>, now: i64) -> Seq<UserSession>
    decreases s.len(),
{
    if s.len() == 0 {
        Seq::empty()
    } else {
        let rest = spec_live_sessions(s.drop_last(), now);
        if s.last().session_expiry < now {
            rest
        } else {
            rest.push(s.last())
        }
    }
}

/// Hashes pairwise distinct.
pub open spec fn session_rows_wf(s: Seq<UserSession>) -> bool {
    forall|i: int, j: int| 0 <= i < j < s.len() ==> s[i].session_hash@ != s[j].session_hash@
}

/// Dropping the rows a predicate rejects keeps the key constraint; stated
/// for each of the three drop shapes this table uses.
pub proof fn lemma_remove_by_user_id_wf(s: Seq<UserSession>, user_id: i64)
    requires
        session_rows_wf(s),
    ensures
        session_rows_wf(spec_remove_by_user_id(s, user_id)),
        forall|i: int|
            0 <= i < spec_remove_by_user_id(s, user_id).len() ==> s.contains(
                #[trigger] spec_remove_by_user_id(s, user_id)[i],
            ) && spec_remove_by_user_id(s, user_id)[i].user_id != user_id,
    decreases s.len(),
{
    if s.len() > 0 {
        let r = spec_remove_by_user_id(s, user_id);
        let rest = spec_remove_by_user_id(s.drop_last(), user_id);
        lemma_remove_by_user_id_wf(s.drop_last(), user_id);
        assert forall|i: int| 0 <= i < rest.len() implies s.contains(rest[i]) by {
            assert(s.drop_last().contains(rest[i]));
            let k = choose|k: int| 0 <= k < s.drop_last().len() && s.drop_last()[k] == rest[i];
            assert(s[k] == rest[i]);
        }
        if s.last().user_id != user_id {
            assert forall|i: int, j: int| 0 <= i < j < r.len() implies r[i].session_hash@
                != r[j].session_hash@ by {
                if j == r.len() - 1 {
                    assert(s.drop_last().contains(rest[i]));
                    let k = choose|k: int|
                        0 <= k < s.drop_last().len() && s.drop_last()[k] == rest[i];
                    assert(s[k] == r[i] && s[s.len() - 1] == r[j]);
                }
            }
        }
    }
}

/// See `lemma_remove_by_user_id_wf`.
pub proof fn lemma_remove_by_hash_wf(s: Seq<UserSession>, hash: Seq<char>)
    requires
        session_rows_wf(s),
    ensures
        session_rows_wf(spec_remove_by_hash(s, hash)),
        forall|i: int|
            0 <= i < spec_remove_by_hash(s, hash).len() ==> s.contains(
                #[trigger] spec_remove_by_hash(s, hash)[i],
            ) && spec_remove_by_hash(s, hash)[i].session_hash@ != hash,
        !has_hash(spec_remove_by_hash(s, hash), hash),
    decreases s.len(),
{
    if s.len() > 0 {
        let r = spec_remove_by_hash(s, hash);
        let rest = spec_remove_by_hash(s.drop_last(), hash);
        lemma_remove_by_hash_wf(s.drop_last(), hash);
        assert forall|i: int| 0 <= i < rest.len() implies s.contains(rest[i]) by {
            assert(s.drop_last().contains(rest[i]));
            let k = choose|k: int| 0 <= k < s.drop_last().len() && s.drop_last()[k] == rest[i];
            assert(s[k] == rest[i]);
        }
        if s.last().session_hash@ != hash {
            assert forall|i: int, j: int| 0 <= i < j < r.len() implies r[i].session_hash@
                != r[j].session_hash@ by {
                if j == r.len() - 1 {
                    assert(s.drop_last().contains(rest[i]));
                    let k = choose|k: int|
                        0 <= k < s.drop_last().len() && s.drop_last()[k] == rest[i];
                    assert(s[k] == r[i] && s[s.len() - 1] == r[j]);
                }
            }
        }
    }
}

/// See `lemma_remove_by_user_id_wf`.
pub proof fn lemma_live_sessions_wf(s: Seq<UserSession>, now: i64)
    requires
        session_rows_wf(s),
    ensures
        session_rows_wf(spec_live_sessions(s, now)),
        forall|i: int|
            0 <= i < spec_live_sessions(s, now).len() ==> s.contains(
                #[trigger] spec_live_sessions(s, now)[i],
            ) && spec_live_sessions(s, now)[i].session_expiry >= now,
    decreases s.len(),
{
    if s.len() > 0 {
        let r = spec_live_sessions(s, now);
        let rest = spec_live_sessions(s.drop_last(), now);
        lemma_live_sessions_wf(s.drop_last(), now);
        assert forall|i: int| 0 <= i < rest.len() implies s.contains(rest[i]) by {
            assert(s.drop_last().contains(rest[i]));
            let k = choose|k: int| 0 <= k < s.drop_last().len() && s.drop_last()[k] == rest[i];
            assert(s[k] == rest[i]);
        }
        if s.last().session_expiry >= now {
            assert forall|i: int, j: int| 0 <= i < j < r.len() implies r[i].session_hash@
                != r[j].session_hash@ by {
                if j == r.len() - 1 {
                    assert(s.drop_last().contains(rest[i]));
                    let k = choose|k: int|
                        0 <= k < s.drop_last().len() && s.drop_last()[k] == rest[i];
                    assert(s[k] == r[i] && s[s.len() - 1] == r[j]);
                }
            }
        }
    }
}


/// Removing a hash that no row holds leaves the table unchanged.
pub proof fn lemma_remove_by_hash_absent(s: Seq<UserSession>, hash: Seq<char>)
    requires
        !has_hash(s, hash),
    ensures
        spec_remove_by_hash(s, hash) == s,
    decreases s.len(),
{
    if s.len() > 0 {
        assert(!has_hash(s.drop_last(), hash)) by {
            assert forall|i: int|
                0 <= i < s.drop_last().len() implies s.drop_last()[i].session_hash@ != hash by {
                assert(s[i].session_hash@ != hash);
            }
        }
        lemma_remove_by_hash_absent(s.drop_last(), hash);
        assert(s.last().session_hash@ != hash);
        assert(spec_remove_by_hash(s, hash) =~= s);
    }
}

/// Revocation is idempotent: revoking a hash twice is the same as revoking
/// it once, since the first revocation leaves no row with that hash.
pub proof fn lemma_revoke_idempotent(s: Seq<UserSession>, hash: Seq<char>)
    requires
        session_rows_wf(s),
    ensures
        spec_remove_by_hash(spec_remove_by_hash(s, hash), hash) == spec_remove_by_hash(s, hash),
{
    lemma_remove_by_hash_wf(s, hash);
    lemma_remove_by_hash_absent(spec_remove_by_hash(s, hash), hash);
}


/// The table without the rows of any account in `ids`, in order: the
/// cascade of a bulk account purge.
pub open spec fn spec_remove_user_ids(s: Seq<UserSession>, ids: Seq<i64>) -> Seq<UserSession>
    decreases s.len(),
{
    if s.len() == 0 {
        Seq::empty()
    } else {
        let rest = spec_remove_user_ids(s.drop_last(), ids);
        if ids.contains(s.last().user_id) {
            rest
        } else {
            rest.push(s.last())
        }
    }
}

/// Dropping the rows of the accounts in `ids` keeps the key constraints and
/// keeps only rows of other accounts.
pub proof fn lemma_remove_user_ids_wf(s: Seq<UserSession>, ids: Seq<i64>)
    requires
        session_rows_wf(s),
    ensures
        session_rows_wf(spec_remove_user_ids(s, ids)),
        forall|i: int|
            0 <= i < spec_remove_user_ids(s, ids).len() ==> s.contains(
                #[trigger] spec_remove_user_ids(s, ids)[i],
            ) && !ids.contains(spec_remove_user_ids(s, ids)[i].user_id),
    decreases s.len(),
{
    if s.len() > 0 {
        let r = spec_remove_user_ids(s, ids);
        let rest = spec_remove_user_ids(s.drop_last(), ids);
        lemma_remove_user_ids_wf(s.drop_last(), ids);
        assert forall|i: int| 0 <= i < rest.len() implies s.contains(rest[i]) by {
            assert(s.drop_last().contains(rest[i]));
            let k = choose|k: int| 0 <= k < s.drop_last().len() && s.drop_last()[k] == rest[i];
            assert(s[k] == rest[i]);
        }
        if !ids.contains(s.last().user_id) {
            assert forall|i: int, j: int| 0 <= i < j < r.len() implies r[i].session_hash@
                != r[j].session_hash@ by {
                if j == r.len() - 1 {
                    assert(s.drop_last().contains(rest[i]));
                    let k = choose|k: int|
                        0 <= k < s.drop_last().len() && s.drop_last()[k] == rest[i];
                    assert(s[k] == r[i] && s[s.len() - 1] == r[j]);
                }
            }
        }
    }
}

/// The session table.
pub struct UserSessionsTable {
    rows: Vec<UserSession>,
}

impl View for UserSessionsTable {
    type V = Seq<UserSession>;

    closed spec fn view(&self) -> Seq<UserSession> {
        self.rows@
    }
}

impl UserSessionsTable {
    /// The primary-key constraint: one row per lookup hash.
    pub open spec fn wf(&self) -> bool {
        session_rows_wf(self@)
    }

    /// An empty table.
    pub fn new() -> (r: UserSessionsTable)
        ensures
            r.wf(),
            r@.len() == 0,
    {
        UserSessionsTable { rows: Vec::new() }
    }


    /// How many rows the table holds.
    pub fn len(&self) -> (n: usize)
        ensures
            n == self@.len(),
    {
        self.rows.len()
    }

    /// Index of the row holding this hash, if any.
    fn find_by_hash(&self, session_hash: &str) -> (r: Option<usize>)
        ensures
            match r {
                Some(i) => i < self@.len() && self@[i as int].session_hash@ == session_hash@,
                None => !has_hash(self@, session_hash@),
            },
    {
        let n = self.rows.len();
        let mut i: usize = 0;
        while i < n
            invariant
                n == self@.len(),
                i <= n,
                forall|j: int| 0 <= j < i ==> self@[j].session_hash@ != session_hash@,
            decreases n - i,
        {
            if str_eq(self.rows[i].session_hash.as_str(), session_hash) {
                return Some(i);
            }
            i = i + 1;
        }
        None
    }


    /// Issues a session for this account: generates a fresh raw token and a
    /// display id, stores the token's hash with expiry `now + duration_secs`,
    /// and returns the raw token with the stored row. The raw token is
    /// returned exactly once and never retrievable again.
    pub fn issue(&mut self, user_id: i64, now: i64, duration_secs: i64) -> (r: Result<
        (String, UserSession),
        StoreError,
    >)
        requires
            old(self).wf(),
            0 <= duration_secs,
            now + duration_secs <= i64::MAX,
        ensures
            final(self).wf(),
            r matches Err(e) ==> final(self)@ == old(self)@ && e == StoreError::Internal,
            r matches Ok(p) ==> {
                &&& p.0@.len() == 64
                &&& p.1.session_hash@ == codec::spec_hash_token(p.0@)
                &&& p.1.user_id == user_id
                &&& p.1.session_expiry == now + duration_secs
                &&& p.1.session_created_at == now
                &&& final(self)@ == old(self)@.push(p.1)
            },
    {
        let token = match codec::generate_session_token() {
            Ok(t) => t,
            Err(_) => {
                return Err(StoreError::Internal);
            },
        };
        let session_hash = codec::hash_token(token.as_str());
        let session_id = match codec::generate_session_id() {
            Ok(t) => t,
            Err(_) => {
                return Err(StoreError::Internal);
            },
        };
        let session = UserSession {
            user_id,
            session_id,
            session_hash,
            session_expiry: now + duration_secs,
            session_created_at: now,
        };
        let stored = session.clone();
        match self.insert(&session) {
            Ok(()) => Ok((token, stored)),
            Err(e) => Err(e),
        }
    }

    /// Looks a session up by raw token: hashes it and fetches by hash. An
    /// expired row gives exactly the `NotFound` an absent row gives, so a
    /// caller cannot tell a dead session from none — no timing or existence
    /// oracle. A session whose expiry lies before `now` is never returned,
    /// however far in the past it expired.
    pub fn lookup(&self, raw_token: &str, now: i64) -> (r: Result<UserSession, StoreError>)
        requires
            self.wf(),
        ensures
            (r is Err) <==> !(exists|i: int|
                0 <= i < self@.len() && (#[trigger] self@[i]).session_hash@
                    == codec::spec_hash_token(raw_token@) && self@[i].session_expiry >= now),
            r matches Err(e) ==> e == StoreError::NotFound,
            r matches Ok(s) ==> self@.contains(s) && s.session_hash@ == codec::spec_hash_token(
                raw_token@,
            ) && s.session_expiry >= now,
    {
        let hash = codec::hash_token(raw_token);
        match self.find_by_hash(hash.as_str()) {
            Some(i) => {
                if self.rows[i].session_expiry < now {
                    proof {
                        assert forall|j: int|
                            0 <= j < self@.len() && (#[trigger] self@[j]).session_hash@
                                == codec::spec_hash_token(raw_token@) implies self@[j].session_expiry
                            < now by {
                            if j != i as int {
                                assert(self@[j].session_hash@ != self@[i as int].session_hash@);
                            }
                        }
                    }
                    return Err(StoreError::NotFound);
                }
                let row = self.rows[i].clone();
                proof {
                    assert(self@[i as int] == row);
                }
                Ok(row)
            },
            None => Err(StoreError::NotFound),
        }
    }

    /// Stores a freshly issued session. A hash that is already present
    /// breaks the primary key and is refused.
    pub fn insert(&mut self, row: &UserSession) -> (r: Result<(), StoreError>)
        requires
            old(self).wf(),
        ensures
            final(self).wf(),
            has_hash(old(self)@, row.session_hash@) ==> (r == Err::<(), StoreError>(
                StoreError::Internal,
            ) && final(self)@ == old(self)@),
            !has_hash(old(self)@, row.session_hash@) ==> (r == Ok::<(), StoreError>(()) && final(self)@ == old(self)@.push(*row)),
    {
        match self.find_by_hash(row.session_hash.as_str()) {
            Some(_) => Err(StoreError::Internal),
            None => {
                let cloned = row.clone();
                self.rows.push(cloned);
                Ok(())
            },
        }
    }

    /// The session with this hash, or `NotFound`.
    pub fn get_by_hash(&self, session_hash: &str) -> (r: Result<UserSession, StoreError>)
        ensures
            match r {
                Ok(row) => self@.contains(row) && row.session_hash@ == session_hash@,
                Err(e) => e == StoreError::NotFound && !has_hash(self@, session_hash@),
            },
    {
        match self.find_by_hash(session_hash) {
            Some(i) => {
                let row = self.rows[i].clone();
                proof {
                    assert(self@[i as int] == row);
                }
                Ok(row)
            },
            None => Err(StoreError::NotFound),
        }
    }

    /// Deletes the session with this hash, when it also belongs to this
    /// account; a no-op otherwise.
    pub fn delete(&mut self, user_id: i64, session_hash: &str)
        requires
            old(self).wf(),
        ensures
            final(self).wf(),
            (exists|i: int|
                0 <= i < old(self)@.len() && old(self)@[i].session_hash@ == session_hash@ && old(self)@[i].user_id == user_id) ==> final(self)@ == spec_remove_by_hash(
                old(self)@,
                session_hash@,
            ),
            !(exists|i: int|
                0 <= i < old(self)@.len() && old(self)@[i].session_hash@ == session_hash@ && old(self)@[i].user_id == user_id) ==> final(self)@ == old(self)@,
    {
        match self.find_by_hash(session_hash) {
            Some(i) => {
                if self.rows[i].user_id == user_id {
                    proof {
                        assert(0 <= (i as int) < self@.len() && self@[i as int].session_hash@
                            == session_hash@ && self@[i as int].user_id == user_id);
                    }
                    self.delete_by_hash(session_hash);
                }
            },
            None => {},
        }
    }

    /// Deletes the session with this hash; idempotent, a no-op when absent.
    pub fn delete_by_hash(&mut self, session_hash: &str)
        requires
            old(self).wf(),
        ensures
            final(self).wf(),
            final(self)@ == spec_remove_by_hash(old(self)@, session_hash@),
            !has_hash(final(self)@, session_hash@),
    {
        let n = self.rows.len();
        let mut kept: Vec<UserSession> = Vec::new();
        let mut i: usize = 0;
        while i < n
            invariant
                self == old(self),
                n == self@.len(),
                i <= n,
                kept@ == spec_remove_by_hash(self@.take(i as int), session_hash@),
            decreases n - i,
        {
            if !str_eq(self.rows[i].session_hash.as_str(), session_hash) {
                let row = self.rows[i].clone();
                kept.push(row);
            }
            proof {
                assert(self@.take(i + 1).drop_last() =~= self@.take(i as int));
                assert(self@.take(i + 1).last() == self@[i as int]);
            }
            i = i + 1;
        }
        proof {
            assert(self@.take(n as int) =~= self@);
        }
        self.rows = kept;
        proof {
            lemma_remove_by_hash_wf(old(self)@, session_hash@);
        }
    }

    /// Deletes every session of this account, as the schema's foreign key
    /// cascade would on account deletion.
    pub fn delete_by_user_id(&mut self, user_id: i64)
        requires
            old(self).wf(),
        ensures
            final(self).wf(),
            final(self)@ == spec_remove_by_user_id(old(self)@, user_id),
    {
        let n = self.rows.len();
        let mut kept: Vec<UserSession> = Vec::new();
        let mut i: usize = 0;
        while i < n
            invariant
                self == old(self),
                n == self@.len(),
                i <= n,
                kept@ == spec_remove_by_user_id(self@.take(i as int), user_id),
            decreases n - i,
        {
            if self.rows[i].user_id != user_id {
                let row = self.rows[i].clone();
                kept.push(row);
            }
            proof {
                assert(self@.take(i + 1).drop_last() =~= self@.take(i as int));
                assert(self@.take(i + 1).last() == self@[i as int]);
            }
            i = i + 1;
        }
        proof {
            assert(self@.take(n as int) =~= self@);
        }
        self.rows = kept;
        proof {
            lemma_remove_by_user_id_wf(old(self)@, user_id);
        }
    }

    /// Extends the expiry of the session with this hash in place. A missing
    /// hash is a silent no-op, as an unmatched `UPDATE` is.
    pub fn update_expiry(&mut self, session_hash: &str, new_expiry: i64)
        requires
            old(self).wf(),
        ensures
            final(self).wf(),
            !has_hash(old(self)@, session_hash@) ==> final(self)@ == old(self)@,
            has_hash(old(self)@, session_hash@) ==> exists|i: int|
                0 <= i < old(self)@.len() && old(self)@[i].session_hash@ == session_hash@ && final(self)@ == old(self)@.update(
                    i,
                    (UserSession { session_expiry: new_expiry, ..old(self)@[i] }),
                ),
    {
        match self.find_by_hash(session_hash) {
            Some(i) => {
                let mut row = self.rows[i].clone();
                row.session_expiry = new_expiry;
                self.rows[i] = row;
                proof {
                    assert(0 <= (i as int) < old(self)@.len() && old(self)@[i as int].session_hash@
                        == session_hash@ && self@ == old(self)@.update(
                        i as int,
                        (UserSession { session_expiry: new_expiry, ..old(self)@[i as int] }),
                    ));
                }
            },
            None => {},
        }
    }

    /// Rotates a session on renewal: the row found under the old hash gets
    /// the new hash and the new expiry, so the old secret stops working. A
    /// new hash already held by another row is refused.
    pub fn update_session(&mut self, session_hash: &str, new_expiry: i64, new_hash: &str) -> (r:
        Result<(), StoreError>)
        requires
            old(self).wf(),
        ensures
            final(self).wf(),
            !has_hash(old(self)@, session_hash@) ==> (r == Err::<(), StoreError>(
                StoreError::NotFound,
            ) && final(self)@ == old(self)@),
            has_hash(old(self)@, session_hash@) && has_hash(old(self)@, new_hash@) && new_hash@
                != session_hash@ ==> (r == Err::<(), StoreError>(StoreError::Internal) && final(self)@ == old(self)@),
            has_hash(old(self)@, session_hash@) && (!has_hash(old(self)@, new_hash@) || new_hash@
                == session_hash@) ==> r == Ok::<(), StoreError>(()) && exists|i: int|
                0 <= i < old(self)@.len() && (#[trigger] old(self)@[i]).session_hash@
                    == session_hash@ && final(self)@ == old(self)@.update(i, final(self)@[i])
                    && final(self)@[i].session_hash@ == new_hash@ && final(self)@[i].session_expiry
                    == new_expiry && final(self)@[i].user_id == old(self)@[i].user_id && final(self)@[i].session_id == old(self)@[i].session_id && final(self)@[i].session_created_at
                    == old(self)@[i].session_created_at,
    {
        let i = match self.find_by_hash(session_hash) {
            Some(i) => i,
            None => {
                return Err(StoreError::NotFound);
            },
        };
        proof {
            assert(has_hash(self@, session_hash@)) by {
                assert(0 <= (i as int) < self@.len() && self@[i as int].session_hash@
                    == session_hash@);
            }
        }
        match self.find_by_hash(new_hash) {
            Some(j) => {
                if !str_eq(self.rows[j].session_hash.as_str(), session_hash) {
                    proof {
                        assert(0 <= (j as int) < self@.len() && self@[j as int].session_hash@
                            == new_hash@);
                    }
                    return Err(StoreError::Internal);
                }
            },
            None => {},
        }
        let nh = new_hash.to_owned();
        let mut row = self.rows[i].clone();
        row.session_hash = nh;
        row.session_expiry = new_expiry;
        self.rows[i] = row;
        proof {
            assert(0 <= (i as int) < old(self)@.len() && old(self)@[i as int].session_hash@
                == session_hash@ && self@ == old(self)@.update(i as int, self@[i as int])
                && self@[i as int].session_hash@ == new_hash@ && self@[i as int].session_expiry
                == new_expiry && self@[i as int].user_id == old(self)@[i as int].user_id
                && self@[i as int].session_id == old(self)@[i as int].session_id
                && self@[i as int].session_created_at == old(self)@[i as int].session_created_at);
        }
        Ok(())
    }

    /// Bulk-deletes every session whose expiry lies before `now`.
    pub fn cleanup_expired_sessions(&mut self, now: i64)
        requires
            old(self).wf(),
        ensures
            final(self).wf(),
            final(self)@ == spec_live_sessions(old(self)@, now),
            forall|i: int| 0 <= i < final(self)@.len() ==> final(self)@[i].session_expiry >= now,
    {
        let n = self.rows.len();
        let mut kept: Vec<UserSession> = Vec::new();
        let mut i: usize = 0;
        while i < n
            invariant
                self == old(self),
                n == self@.len(),
                i <= n,
                kept@ == spec_live_sessions(self@.take(i as int), now),
            decreases n - i,
        {
            if !(self.rows[i].session_expiry < now) {
                let row = self.rows[i].clone();
                kept.push(row);
            }
            proof {
                assert(self@.take(i + 1).drop_last() =~= self@.take(i as int));
                assert(self@.take(i + 1).last() == self@[i as int]);
            }
            i = i + 1;
        }
        proof {
            assert(self@.take(n as int) =~= self@);
        }
        self.rows = kept;
        proof {
            lemma_live_sessions_wf(old(self)@, now);
        }
    }

    /// Deletes every row of every account in `ids`: the cascade the cleanup
    /// sweep runs after purging the accounts themselves.
    pub fn delete_by_user_ids(&mut self, ids: &Vec<i64>)
        requires
            old(self).wf(),
        ensures
            final(self).wf(),
            final(self)@ == spec_remove_user_ids(old(self)@, ids@),
            forall|i: int|
                0 <= i < final(self)@.len() ==> !ids@.contains(
                    (#[trigger] final(self)@[i]).user_id,
                ),
    {
        let n = self.rows.len();
        let mut kept: Vec<UserSession> = Vec::new();
        let mut i: usize = 0;
        while i < n
            invariant
                self == old(self),
                n == self@.len(),
                i <= n,
                kept@ == spec_remove_user_ids(self@.take(i as int), ids@),
            decreases n - i,
        {
            if !contains_id(ids, self.rows[i].user_id) {
                let row = self.rows[i].clone();
                kept.push(row);
            }
            proof {
                assert(self@.take(i + 1).drop_last() =~= self@.take(i as int));
                assert(self@.take(i + 1).last() == self@[i as int]);
            }
            i = i + 1;
        }
        proof {
            assert(self@.take(n as int) =~= self@);
        }
        self.rows = kept;
        proof {
            lemma_remove_user_ids_wf(old(self)@, ids@);
        }
    }
}

} // verus!
