//! The per-user data table: one row per account, holding the account's
//! counter. Created together with the account and cascade-deleted with it.

use vstd::prelude::*;
use crate::db::StoreError;
use crate::db::contains_id;

verus! {

/// One per-user data row.
#[derive(Clone, Copy, Debug, PartialEq, Eq, Structural)]
pub struct UserData {
    pub user_id: i64,
    pub counter: i64,
}

/// Some row belongs to this account.
pub open spec fn has_user_row(s: Seq<UserData>, user_id: i64) -> bool {
    exists|i: int| 0 <= i < s.len() && s[i].user_id == user_id
}

/// The table without the rows of this account, in order.
pub open spec fn spec_remove_by_user_id(s: Seq<UserData>, user_id: i64) -> Seq<UserData>
    decreases s.len(),
{
    if s.len() == 0 {
        Seq::empty()
    } else {
        let rest = spec_remove_by_user_id(s.drop_last(), user_id);
        if s.last().user_id == user_id {
            rest
        } else {
            rest.push(s.last())
        }
    }
}


/// Removing an account that has no row leaves the table unchanged.
pub proof fn lemma_remove_absent(s: Seq<UserData>, user_id: i64)
    requires
        !has_user_row(s, user_id),
    ensures
        spec_remove_by_user_id(s, user_id) == s,
    decreases s.len(),
{
    if s.len() > 0 {
        assert(!has_user_row(s.drop_last(), user_id)) by {
            assert forall|i: int|
                0 <= i < s.drop_last().len() implies s.drop_last()[i].user_id != user_id by {
                assert(s[i].user_id != user_id);
            }
        }
        lemma_remove_absent(s.drop_last(), user_id);
        assert(s.last().user_id != user_id);
        assert(spec_remove_by_user_id(s, user_id) =~= s);
    }
}

/// Account ids pairwise distinct.
pub open spec fn data_rows_wf(s: Seq<UserData>) -> bool {
    forall|i: int, j: int| 0 <= i < j < s.len() ==> s[i].user_id != s[j].user_id
}

/// Dropping an account's rows keeps the key constraint and keeps only rows
/// of other accounts.
pub proof fn lemma_remove_by_user_id_wf(s: Seq<UserData>, user_id: i64)
    requires
        data_rows_wf(s),
    ensures
        data_rows_wf(spec_remove_by_user_id(s, user_id)),
        forall|i: int|
            0 <= i < spec_remove_by_user_id(s, user_id).len() ==> s.contains(
                #[trigger] spec_remove_by_user_id(s, user_id)[i],
            ) && spec_remove_by_user_id(s, user_id)[i].user_id != user_id,
        !has_user_row(spec_remove_by_user_id(s, user_id), user_id),
    decreases s.len(),
{
    if s.len() > 0 {
        let r = spec_remove_by_user_id(s, user_id);
        let rest = spec_remove_by_user_id(s.drop_last(), user_id);
        lemma_remove_by_user_id_wf(s.drop_last(), user_id);
        assert forall|i: int| 0 <= i < rest.len() implies s.contains(rest[i]) by {
            assert(s.drop_last().contains(rest[i]));
            let k = choose|k: int| 0 <= k < s.drop_last().len() && s.drop_last()[k] == rest[i];
            assert(s[k] == rest[i]);
        }
        if s.last().user_id != user_id {
            assert forall|i: int, j: int| 0 <= i < j < r.len() implies r[i].user_id
                != r[j].user_id by {
                if j == r.len() - 1 {
                    assert(s.drop_last().contains(rest[i]));
                    let k = choose|k: int|
                        0 <= k < s.drop_last().len() && s.drop_last()[k] == rest[i];
                    assert(s[k] == r[i] && s[s.len() - 1] == r[j]);
                }
            }
        }
    }
}


/// The table without the rows of any account in `ids`, in order: the
/// cascade of a bulk account purge.
pub open spec fn spec_remove_user_ids(s: Seq<UserData>, ids: Seq<i64>) -> Seq<UserData>
    decreases s.len(),
{
    if s.len() == 0 {
        Seq::empty()
    } else {
        let rest = spec_remove_user_ids(s.drop_last(), ids);
        if ids.contains(s.last().user_id) {
            rest
        } else {
            rest.push(s.last())
        }
    }
}

/// Dropping the rows of the accounts in `ids` keeps the key constraints and
/// keeps only rows of other accounts.
pub proof fn lemma_remove_user_ids_wf(s: Seq<UserData>, ids: Seq<i64>)
    requires
        data_rows_wf(s),
    ensures
        data_rows_wf(spec_remove_user_ids(s, ids)),
        forall|i: int|
            0 <= i < spec_remove_user_ids(s, ids).len() ==> s.contains(
                #[trigger] spec_remove_user_ids(s, ids)[i],
            ) && !ids.contains(spec_remove_user_ids(s, ids)[i].user_id),
    decreases s.len(),
{
    if s.len() > 0 {
        let r = spec_remove_user_ids(s, ids);
        let rest = spec_remove_user_ids(s.drop_last(), ids);
        lemma_remove_user_ids_wf(s.drop_last(), ids);
        assert forall|i: int| 0 <= i < rest.len() implies s.contains(rest[i]) by {
            assert(s.drop_last().contains(rest[i]));
            let k = choose|k: int| 0 <= k < s.drop_last().len() && s.drop_last()[k] == rest[i];
            assert(s[k] == rest[i]);
        }
        if !ids.contains(s.last().user_id) {
            assert forall|i: int, j: int| 0 <= i < j < r.len() implies r[i].user_id
                != r[j].user_id by {
                if j == r.len() - 1 {
                    assert(s.drop_last().contains(rest[i]));
                    let k = choose|k: int|
                        0 <= k < s.drop_last().len() && s.drop_last()[k] == rest[i];
                    assert(s[k] == r[i] && s[s.len() - 1] == r[j]);
                }
            }
        }
    }
}

/// The per-user data table.
pub struct UserDataTable {
    rows: Vec<UserData>,
}

impl View for UserDataTable {
    type V = Seq<UserData>;

    closed spec fn view(&self) -> Seq<UserData> {
        self.rows@
    }
}

impl UserDataTable {
    /// The primary-key constraint: one row per account.
    pub open spec fn wf(&self) -> bool {
        data_rows_wf(self@)
    }

    /// An empty table.
    pub fn new() -> (r: UserDataTable)
        ensures
            r.wf(),
            r@.len() == 0,
    {
        UserDataTable { rows: Vec::new() }
    }


    /// How many rows the table holds.
    pub fn len(&self) -> (n: usize)
        ensures
            n == self@.len(),
    {
        self.rows.len()
    }

    /// Index of this account's row, if any.
    fn find_by_user_id(&self, user_id: i64) -> (r: Option<usize>)
        ensures
            match r {
                Some(i) => i < self@.len() && self@[i as int].user_id == user_id,
                None => !has_user_row(self@, user_id),
            },
    {
        let n = self.rows.len();
        let mut i: usize = 0;
        while i < n
            invariant
                n == self@.len(),
                i <= n,
                forall|j: int| 0 <= j < i ==> self@[j].user_id != user_id,
            decreases n - i,
        {
            if self.rows[i].user_id == user_id {
                return Some(i);
            }
            i = i + 1;
        }
        None
    }

    /// Creates this account's row with a zero counter. A second row for the
    /// same account breaks the primary key and is refused.
    pub fn insert(&mut self, user_id: i64) -> (r: Result<(), StoreError>)
        requires
            old(self).wf(),
        ensures
            final(self).wf(),
            has_user_row(old(self)@, user_id) ==> (r == Err::<(), StoreError>(StoreError::Internal)
                && final(self)@ == old(self)@),
            !has_user_row(old(self)@, user_id) ==> (r == Ok::<(), StoreError>(()) && final(self)@
                == old(self)@.push(UserData { user_id, counter: 0 })),
    {
        match self.find_by_user_id(user_id) {
            Some(_) => Err(StoreError::Internal),
            None => {
                self.rows.push(UserData { user_id, counter: 0 });
                Ok(())
            },
        }
    }

    /// This account's row, or `NotFound`.
    pub fn get_by_user_id(&self, user_id: i64) -> (r: Result<UserData, StoreError>)
        ensures
            match r {
                Ok(row) => self@.contains(row) && row.user_id == user_id,
                Err(e) => e == StoreError::NotFound && !has_user_row(self@, user_id),
            },
    {
        match self.find_by_user_id(user_id) {
            Some(i) => {
                proof {
                    assert(self@[i as int].user_id == user_id);
                }
                Ok(self.rows[i])
            },
            None => Err(StoreError::NotFound),
        }
    }

    /// This account's counter, or `NotFound`.
    pub fn get_counter(&self, user_id: i64) -> (r: Result<i64, StoreError>)
        ensures
            match r {
                Ok(v) => exists|i: int|
                    0 <= i < self@.len() && self@[i].user_id == user_id && self@[i].counter == v,
                Err(e) => e == StoreError::NotFound && !has_user_row(self@, user_id),
            },
    {
        match self.find_by_user_id(user_id) {
            Some(i) => {
                proof {
                    assert(0 <= (i as int) < self@.len() && self@[i as int].user_id == user_id);
                }
                Ok(self.rows[i].counter)
            },
            None => Err(StoreError::NotFound),
        }
    }

    /// Replaces this account's counter. A missing row is a silent no-op, as
    /// an unmatched `UPDATE` is.
    pub fn update_counter(&mut self, user_id: i64, new_counter: i64)
        requires
            old(self).wf(),
        ensures
            final(self).wf(),
            !has_user_row(old(self)@, user_id) ==> final(self)@ == old(self)@,
            has_user_row(old(self)@, user_id) ==> exists|i: int|
                0 <= i < old(self)@.len() && old(self)@[i].user_id == user_id && final(self)@
                    == old(self)@.update(i, UserData { user_id, counter: new_counter }),
    {
        match self.find_by_user_id(user_id) {
            Some(i) => {
                self.rows[i] = UserData { user_id, counter: new_counter };
                proof {
                    assert(0 <= (i as int) < old(self)@.len() && old(self)@[i as int].user_id
                        == user_id && self@ == old(self)@.update(
                        i as int,
                        UserData { user_id, counter: new_counter },
                    ));
                }
            },
            None => {},
        }
    }

    /// Deletes this account's row, as the schema's foreign key cascade would
    /// on account deletion.
    pub fn delete_by_user_id(&mut self, user_id: i64)
        requires
            old(self).wf(),
        ensures
            final(self).wf(),
            final(self)@ == spec_remove_by_user_id(old(self)@, user_id),
            !has_user_row(final(self)@, user_id),
    {
        let n = self.rows.len();
        let mut kept: Vec<UserData> = Vec::new();
        let mut i: usize = 0;
        while i < n
            invariant
                self == old(self),
                n == self@.len(),
                i <= n,
                kept@ == spec_remove_by_user_id(self@.take(i as int), user_id),
            decreases n - i,
        {
            if self.rows[i].user_id != user_id {
                let row = self.rows[i];
                kept.push(row);
            }
            proof {
                assert(self@.take(i + 1).drop_last() =~= self@.take(i as int));
                assert(self@.take(i + 1).last() == self@[i as int]);
            }
            i = i + 1;
        }
        proof {
            assert(self@.take(n as int) =~= self@);
        }
        self.rows = kept;
        proof {
            lemma_remove_by_user_id_wf(old(self)@, user_id);
        }
    }

    /// Deletes every row of every account in `ids`: the cascade the cleanup
    /// sweep runs after purging the accounts themselves.
    pub fn delete_by_user_ids(&mut self, ids: &Vec<i64>)
        requires
            old(self).wf(),
        ensures
            final(self).wf(),
            final(self)@ == spec_remove_user_ids(old(self)@, ids@),
            forall|i: int|
                0 <= i < final(self)@.len() ==> !ids@.contains(
                    (#[trigger] final(self)@[i]).user_id,
                ),
    {
        let n = self.rows.len();
        let mut kept: Vec<UserData> = Vec::new();
        let mut i: usize = 0;
        while i < n
            invariant
                self == old(self),
                n == self@.len(),
                i <= n,
                kept@ == spec_remove_user_ids(self@.take(i as int), ids@),
            decreases n - i,
        {
            if !contains_id(ids, self.rows[i].user_id) {
                let row = self.rows[i].clone();
                kept.push(row);
            }
            proof {
                assert(self@.take(i + 1).drop_last() =~= self@.take(i as int));
                assert(self@.take(i + 1).last() == self@[i as int]);
            }
            i = i + 1;
        }
        proof {
            assert(self@.take(n as int) =~= self@);
        }
        self.rows = kept;
        proof {
            lemma_remove_user_ids_wf(old(self)@, ids@);
        }
    }
}

} // verus!
