//! The account table: one row per account, with unique username, unique
//! email and unique numeric id, an optional password hash (absent after a
//! reset was initiated), the email-verification flag, the role, the
//! reset-pending flag and a soft-delete timestamp.

use vstd::prelude::*;
use crate::codec;
use crate::db::StoreError;
use crate::db::str_eq;
use crate::db::contains_id;

verus! {

/// An account's role. Admins pass the admin gate; plain users do not.
#[derive(Clone, Copy, Debug, PartialEq, Eq, Structural)]
pub enum UserRole {
    User,
    Admin,
}

/// One account row.
pub struct UserLogin {
    pub user_id: i64,
    pub username: String,
    pub email: String,
    /// PHC-formatted password hash; `None` after a reset was initiated and
    /// before a new password was set.
    pub password: Option<String>,
    pub email_verified: bool,
    /// Unix seconds of the moment the email was verified.
    pub email_verified_at: Option<i64>,
    pub role: UserRole,
    /// A password reset is pending for this account.
    pub password_reset: bool,
    /// Unix seconds of the soft deletion, if the account was deleted.
    pub deleted_at: Option<i64>,
}

impl Clone for UserLogin {
    fn clone(&self) -> (r: Self)
        ensures
            r == *self,
    {
        UserLogin {
            user_id: self.user_id,
            username: self.username.clone(),
            email: self.email.clone(),
            password: match &self.password {
                Some(h) => Some(h.clone()),
                None => None,
            },
            email_verified: self.email_verified,
            email_verified_at: self.email_verified_at,
            role: self.role,
            password_reset: self.password_reset,
            deleted_at: self.deleted_at,
        }
    }
}

/// Some row holds this username.
pub open spec fn has_username(s: Seq<UserLogin>, username: Seq<char>) -> bool {
    exists|i: int| 0 <= i < s.len() && s[i].username@ == username
}

/// Some row holds this email.
pub open spec fn has_email(s: Seq<UserLogin>, email: Seq<char>) -> bool {
    exists|i: int| 0 <= i < s.len() && s[i].email@ == email
}

/// Some row holds this id.
pub open spec fn has_user_id(s: Seq<UserLogin>, user_id: i64) -> bool {
    exists|i: int| 0 <= i < s.len() && s[i].user_id == user_id
}

/// A row other than `username`'s own already holds this email.
pub open spec fn email_taken_by_other(
    s: Seq<UserLogin>,
    email: Seq<char>,
    username: Seq<char>,
) -> bool {
    exists|i: int| 0 <= i < s.len() && s[i].email@ == email && s[i].username@ != username
}

/// The table without the rows that hold this username, in order.
pub open spec fn spec_remove_by_username(s: Seq<UserLogin>, username: Seq<char>) -> Seq<UserLogin>
    decreases s.len(),
{
    if s.len() == 0 {
        Seq::empty()
    } else {
        let rest = spec_remove_by_username(s.drop_last(), username);
        if s.last().username@ == username {
            rest
        } else {
            rest.push(s.last())
        }
    }
}

/// The key constraints of a row sequence: usernames, emails and ids are
/// pairwise distinct, and every id is below the bound.
pub open spec fn rows_wf(s: Seq<UserLogin>, id_bound: i64) -> bool {
    &&& forall|i: int, j: int| 0 <= i < j < s.len() ==> s[i].username@ != s[j].username@
    &&& forall|i: int, j: int| 0 <= i < j < s.len() ==> s[i].email@ != s[j].email@
    &&& forall|i: int, j: int| 0 <= i < j < s.len() ==> s[i].user_id != s[j].user_id
    &&& forall|i: int| 0 <= i < s.len() ==> s[i].user_id < id_bound
}

/// Removal by username keeps the key constraints, keeps only rows of the
/// original table, and leaves no row with the removed username behind.
pub proof fn lemma_remove_by_username_wf(s: Seq<UserLogin>, username: Seq<char>, id_bound: i64)
    requires
        rows_wf(s, id_bound),
    ensures
        rows_wf(spec_remove_by_username(s, username), id_bound),
        forall|i: int|
            0 <= i < spec_remove_by_username(s, username).len() ==> s.contains(
                #[trigger] spec_remove_by_username(s, username)[i],
            ),
        !has_username(spec_remove_by_username(s, username), username),
    decreases s.len(),
{
    if s.len() > 0 {
        let r = spec_remove_by_username(s, username);
        let rest = spec_remove_by_username(s.drop_last(), username);
        lemma_remove_by_username_wf(s.drop_last(), username, id_bound);
        assert forall|i: int| 0 <= i < rest.len() implies s.contains(rest[i]) by {
            assert(s.drop_last().contains(rest[i]));
            let k = choose|k: int| 0 <= k < s.drop_last().len() && s.drop_last()[k] == rest[i];
            assert(s[k] == rest[i]);
        }
        if s.last().username@ != username {
            assert(r == rest.push(s.last()));
            assert forall|i: int, j: int| 0 <= i < j < r.len() implies r[i].username@
                != r[j].username@ && r[i].email@ != r[j].email@ && r[i].user_id != r[j].user_id by {
                if j == r.len() - 1 {
                    assert(s.drop_last().contains(rest[i]));
                    let k = choose|k: int|
                        0 <= k < s.drop_last().len() && s.drop_last()[k] == rest[i];
                    assert(s[k] == r[i] && s[s.len() - 1] == r[j]);
                }
            }
        }
    }
}


/// Removing a username that no row holds leaves the table unchanged.
pub proof fn lemma_remove_absent_username(s: Seq<UserLogin>, username: Seq<char>)
    requires
        !has_username(s, username),
    ensures
        spec_remove_by_username(s, username) == s,
    decreases s.len(),
{
    if s.len() > 0 {
        assert(!has_username(s.drop_last(), username)) by {
            assert forall|i: int|
                0 <= i < s.drop_last().len() implies s.drop_last()[i].username@ != username by {
                assert(s[i].username@ != username);
            }
        }
        lemma_remove_absent_username(s.drop_last(), username);
        assert(s.last().username@ != username);
        assert(spec_remove_by_username(s, username) =~= s);
    }
}

/// The table without the accounts that are unverified and whose id stands
/// in `ids`, in order.
pub open spec fn spec_remove_unverified_in(s: Seq<UserLogin>, ids: Seq<i64>) -> Seq<UserLogin>
    decreases s.len(),
{
    if s.len() == 0 {
        Seq::empty()
    } else {
        let rest = spec_remove_unverified_in(s.drop_last(), ids);
        if !s.last().email_verified && ids.contains(s.last().user_id) {
            rest
        } else {
            rest.push(s.last())
        }
    }
}

/// Dropping the unverified accounts among `ids` keeps the key constraints
/// and keeps only rows of the original table.
pub proof fn lemma_remove_unverified_in_wf(s: Seq<UserLogin>, ids: Seq<i64>, id_bound: i64)
    requires
        rows_wf(s, id_bound),
    ensures
        rows_wf(spec_remove_unverified_in(s, ids), id_bound),
        forall|i: int|
            0 <= i < spec_remove_unverified_in(s, ids).len() ==> s.contains(
                #[trigger] spec_remove_unverified_in(s, ids)[i],
            ),
    decreases s.len(),
{
    if s.len() > 0 {
        let r = spec_remove_unverified_in(s, ids);
        let rest = spec_remove_unverified_in(s.drop_last(), ids);
        lemma_remove_unverified_in_wf(s.drop_last(), ids, id_bound);
        assert forall|i: int| 0 <= i < rest.len() implies s.contains(rest[i]) by {
            assert(s.drop_last().contains(rest[i]));
            let k = choose|k: int| 0 <= k < s.drop_last().len() && s.drop_last()[k] == rest[i];
            assert(s[k] == rest[i]);
        }
        if !(!s.last().email_verified && ids.contains(s.last().user_id)) {
            assert forall|i: int, j: int| 0 <= i < j < r.len() implies r[i].username@
                != r[j].username@ && r[i].email@ != r[j].email@ && r[i].user_id != r[j].user_id by {
                if j == r.len() - 1 {
                    assert(s.drop_last().contains(rest[i]));
                    let k = choose|k: int|
                        0 <= k < s.drop_last().len() && s.drop_last()[k] == rest[i];
                    assert(s[k] == r[i] && s[s.len() - 1] == r[j]);
                }
            }
        }
    }
}

/// The account table.
pub struct UserLoginTable {
    rows: Vec<UserLogin>,
    next_user_id: i64,
}

impl View for UserLoginTable {
    type V = Seq<UserLogin>;

    closed spec fn view(&self) -> Seq<UserLogin> {
        self.rows@
    }
}

impl UserLoginTable {
    /// The id the next inserted account will get.
    pub closed spec fn spec_next_id(&self) -> i64 {
        self.next_user_id
    }

    /// The schema's key constraints, tied to the id counter.
    pub open spec fn wf(&self) -> bool {
        &&& rows_wf(self@, self.spec_next_id())
        &&& 0 < self.spec_next_id()
    }

    /// An empty table.
    pub fn new() -> (r: UserLoginTable)
        ensures
            r.wf(),
            r@.len() == 0,
            r.spec_next_id() == 1,
    {
        UserLoginTable { rows: Vec::new(), next_user_id: 1 }
    }


    /// How many rows the table holds.
    pub fn len(&self) -> (n: usize)
        ensures
            n == self@.len(),
    {
        self.rows.len()
    }

    /// Index of the row holding this username, if any.
    fn find_by_username(&self, username: &str) -> (r: Option<usize>)
        ensures
            match r {
                Some(i) => i < self@.len() && self@[i as int].username@ == username@,
                None => !has_username(self@, username@),
            },
    {
        let n = self.rows.len();
        let mut i: usize = 0;
        while i < n
            invariant
                n == self@.len(),
                i <= n,
                forall|j: int| 0 <= j < i ==> self@[j].username@ != username@,
            decreases n - i,
        {
            if str_eq(self.rows[i].username.as_str(), username) {
                return Some(i);
            }
            i = i + 1;
        }
        None
    }

    /// Index of the row holding this email, if any.
    fn find_by_email(&self, email: &str) -> (r: Option<usize>)
        ensures
            match r {
                Some(i) => i < self@.len() && self@[i as int].email@ == email@,
                None => !has_email(self@, email@),
            },
    {
        let n = self.rows.len();
        let mut i: usize = 0;
        while i < n
            invariant
                n == self@.len(),
                i <= n,
                forall|j: int| 0 <= j < i ==> self@[j].email@ != email@,
            decreases n - i,
        {
            if str_eq(self.rows[i].email.as_str(), email) {
                return Some(i);
            }
            i = i + 1;
        }
        None
    }

    /// Index of the row holding this id, if any.
    fn find_by_user_id(&self, user_id: i64) -> (r: Option<usize>)
        ensures
            match r {
                Some(i) => i < self@.len() && self@[i as int].user_id == user_id,
                None => !has_user_id(self@, user_id),
            },
    {
        let n = self.rows.len();
        let mut i: usize = 0;
        while i < n
            invariant
                n == self@.len(),
                i <= n,
                forall|j: int| 0 <= j < i ==> self@[j].user_id != user_id,
            decreases n - i,
        {
            if self.rows[i].user_id == user_id {
                return Some(i);
            }
            i = i + 1;
        }
        None
    }

    /// The account with this username, or `NotFound`.
    pub fn get_by_username(&self, username: &str) -> (r: Result<UserLogin, StoreError>)
        ensures
            match r {
                Ok(row) => self@.contains(row) && row.username@ == username@,
                Err(e) => e == StoreError::NotFound && !has_username(self@, username@),
            },
    {
        match self.find_by_username(username) {
            Some(i) => {
                let row = self.rows[i].clone();
                proof {
                    assert(self@[i as int] == row);
                }
                Ok(row)
            },
            None => Err(StoreError::NotFound),
        }
    }

    /// The account with this email, or `NotFound`.
    pub fn get_by_email(&self, email: &str) -> (r: Result<UserLogin, StoreError>)
        ensures
            match r {
                Ok(row) => self@.contains(row) && row.email@ == email@,
                Err(e) => e == StoreError::NotFound && !has_email(self@, email@),
            },
    {
        match self.find_by_email(email) {
            Some(i) => {
                let row = self.rows[i].clone();
                proof {
                    assert(self@[i as int] == row);
                }
                Ok(row)
            },
            None => Err(StoreError::NotFound),
        }
    }

    /// The account with this id, or `NotFound`.
    pub fn get_by_user_id(&self, user_id: i64) -> (r: Result<UserLogin, StoreError>)
        ensures
            match r {
                Ok(row) => self@.contains(row) && row.user_id == user_id,
                Err(e) => e == StoreError::NotFound && !has_user_id(self@, user_id),
            },
    {
        match self.find_by_user_id(user_id) {
            Some(i) => {
                let row = self.rows[i].clone();
                proof {
                    assert(self@[i as int] == row);
                }
                Ok(row)
            },
            None => Err(StoreError::NotFound),
        }
    }

    /// The id of the account with this username, or `NotFound`.
    pub fn get_user_id_by_username(&self, username: &str) -> (r: Result<i64, StoreError>)
        ensures
            match r {
                Ok(id) => exists|i: int|
                    0 <= i < self@.len() && self@[i].username@ == username@ && self@[i].user_id
                        == id,
                Err(e) => e == StoreError::NotFound && !has_username(self@, username@),
            },
    {
        match self.find_by_username(username) {
            Some(i) => Ok(self.rows[i].user_id),
            None => Err(StoreError::NotFound),
        }
    }

    /// Whether no account holds this username.
    pub fn is_username_free(&self, username: &str) -> (r: bool)
        ensures
            r == !has_username(self@, username@),
    {
        match self.find_by_username(username) {
            Some(_) => false,
            None => true,
        }
    }

    /// Whether no account holds this email.
    pub fn is_email_free(&self, email: &str) -> (r: bool)
        ensures
            r == !has_email(self@, email@),
    {
        match self.find_by_email(email) {
            Some(_) => false,
            None => true,
        }
    }

    /// Whether the account with this username has verified its email.
    pub fn is_email_verified(&self, username: &str) -> (r: Result<bool, StoreError>)
        ensures
            match r {
                Ok(b) => exists|i: int|
                    0 <= i < self@.len() && self@[i].username@ == username@
                        && self@[i].email_verified == b,
                Err(e) => e == StoreError::NotFound && !has_username(self@, username@),
            },
    {
        match self.find_by_username(username) {
            Some(i) => {
                proof {
                    assert(0 <= (i as int) < self@.len() && self@[i as int].username@ == username@);
                }
                Ok(self.rows[i].email_verified)
            },
            None => Err(StoreError::NotFound),
        }
    }

    /// Upserts a row keyed by username. An insert draws the next id; an
    /// update keeps the existing row's id and replaces everything else. The
    /// email column's uniqueness is the real guard against the
    /// check-then-insert race and is enforced either way: an email held by a
    /// different username is refused.
    pub fn set(&mut self, row: &UserLogin) -> (r: Result<i64, StoreError>)
        requires
            old(self).wf(),
        ensures
            final(self).wf(),
            email_taken_by_other(old(self)@, row.email@, row.username@) ==> (r == Err::<
                i64,
                StoreError,
            >(StoreError::EmailTaken) && final(self)@ == old(self)@ && final(self).spec_next_id()
                == old(self).spec_next_id()),
            !email_taken_by_other(old(self)@, row.email@, row.username@) && has_username(
                old(self)@,
                row.username@,
            ) ==> exists|i: int|
                0 <= i < old(self)@.len() && old(self)@[i].username@ == row.username@ && r == Ok::<
                    i64,
                    StoreError,
                >(old(self)@[i].user_id) && final(self)@ == old(self)@.update(
                    i,
                    (UserLogin { user_id: old(self)@[i].user_id, ..*row }),
                ) && final(self).spec_next_id() == old(self).spec_next_id(),
            !email_taken_by_other(old(self)@, row.email@, row.username@) && !has_username(
                old(self)@,
                row.username@,
            ) && old(self).spec_next_id() == i64::MAX ==> (r == Err::<i64, StoreError>(
                StoreError::Internal,
            ) && final(self)@ == old(self)@ && final(self).spec_next_id() == old(self).spec_next_id()),
            !email_taken_by_other(old(self)@, row.email@, row.username@) && !has_username(
                old(self)@,
                row.username@,
            ) && old(self).spec_next_id() < i64::MAX ==> (r == Ok::<i64, StoreError>(
                old(self).spec_next_id(),
            ) && final(self)@ == old(self)@.push(
                (UserLogin { user_id: old(self).spec_next_id(), ..*row }),
            ) && final(self).spec_next_id() == old(self).spec_next_id() + 1),
    {
        match self.find_by_email(row.email.as_str()) {
            Some(j) => {
                if !str_eq(self.rows[j].username.as_str(), row.username.as_str()) {
                    proof {
                        assert(0 <= (j as int) < self@.len() && self@[j as int].email@ == row.email@
                            && self@[j as int].username@ != row.username@);
                    }
                    return Err(StoreError::EmailTaken);
                }
                proof {
                    assert forall|i: int|
                        0 <= i < self@.len() && self@[i].email@
                            == row.email@ implies self@[i].username@ == row.username@ by {
                        if i != j as int {
                            assert(self@[i].email@ != self@[j as int].email@);
                        }
                    }
                }
            },
            None => {},
        }
        match self.find_by_username(row.username.as_str()) {
            Some(i) => {
                let kept_id = self.rows[i].user_id;
                let mut updated = row.clone();
                updated.user_id = kept_id;
                self.rows[i] = updated;
                proof {
                    assert(self@ == old(self)@.update(
                        i as int,
                        (UserLogin { user_id: old(self)@[i as int].user_id, ..*row }),
                    ));
                    assert(0 <= (i as int) < old(self)@.len() && old(self)@[i as int].username@
                        == row.username@);
                }
                Ok(kept_id)
            },
            None => {
                if self.next_user_id == i64::MAX {
                    return Err(StoreError::Internal);
                }
                let id = self.next_user_id;
                let mut inserted = row.clone();
                inserted.user_id = id;
                self.rows.push(inserted);
                self.next_user_id = id + 1;
                proof {
                    assert(self@ == old(self)@.push(
                        (UserLogin { user_id: old(self).spec_next_id(), ..*row }),
                    ));
                }
                Ok(id)
            },
        }
    }

    /// Creates an account. Fails with `UsernameTaken` or `EmailTaken` when
    /// the key is already held; on success the new row gets the next id,
    /// which is returned.
    pub fn new_user(&mut self, user_login: &UserLogin) -> (r: Result<i64, StoreError>)
        requires
            old(self).wf(),
        ensures
            final(self).wf(),
            has_username(old(self)@, user_login.username@) ==> (r == Err::<i64, StoreError>(
                StoreError::UsernameTaken,
            ) && final(self)@ == old(self)@ && final(self).spec_next_id() == old(self).spec_next_id()),
            !has_username(old(self)@, user_login.username@) && has_email(
                old(self)@,
                user_login.email@,
            ) ==> (r == Err::<i64, StoreError>(StoreError::EmailTaken) && final(self)@ == old(self)@ && final(self).spec_next_id() == old(self).spec_next_id()),
            !has_username(old(self)@, user_login.username@) && !has_email(
                old(self)@,
                user_login.email@,
            ) && old(self).spec_next_id() == i64::MAX ==> (r == Err::<i64, StoreError>(
                StoreError::Internal,
            ) && final(self)@ == old(self)@),
            !has_username(old(self)@, user_login.username@) && !has_email(
                old(self)@,
                user_login.email@,
            ) && old(self).spec_next_id() < i64::MAX ==> (r == Ok::<i64, StoreError>(
                old(self).spec_next_id(),
            ) && final(self)@ == old(self)@.push(
                (UserLogin { user_id: old(self).spec_next_id(), ..*user_login }),
            ) && final(self).spec_next_id() == old(self).spec_next_id() + 1),
    {
        if !self.is_username_free(user_login.username.as_str()) {
            return Err(StoreError::UsernameTaken);
        }
        if !self.is_email_free(user_login.email.as_str()) {
            return Err(StoreError::EmailTaken);
        }
        self.set(user_login)
    }

    /// Hard-deletes the row with this username, if present. Used by the
    /// registration flow to roll a partial registration back.
    pub fn delete(&mut self, username: &str)
        requires
            old(self).wf(),
        ensures
            final(self).wf(),
            final(self)@ == spec_remove_by_username(old(self)@, username@),
            final(self).spec_next_id() == old(self).spec_next_id(),
            !has_username(final(self)@, username@),
    {
        let n = self.rows.len();
        let mut kept: Vec<UserLogin> = Vec::new();
        let mut i: usize = 0;
        while i < n
            invariant
                self == old(self),
                n == self@.len(),
                i <= n,
                kept@ == spec_remove_by_username(self@.take(i as int), username@),
            decreases n - i,
        {
            if !str_eq(self.rows[i].username.as_str(), username) {
                let row = self.rows[i].clone();
                kept.push(row);
            }
            proof {
                assert(self@.take(i + 1).drop_last() =~= self@.take(i as int));
                assert(self@.take(i + 1).last() == self@[i as int]);
            }
            i = i + 1;
        }
        proof {
            assert(self@.take(n as int) =~= self@);
        }
        self.rows = kept;
        proof {
            lemma_remove_by_username_wf(old(self)@, username@, old(self).spec_next_id());
        }
    }

    /// Soft-deletes the account with this id: records the deletion time and
    /// keeps the row. A missing id is a silent no-op, as an unmatched
    /// `UPDATE` is.
    pub fn delete_by_user_id(&mut self, user_id: i64, now: i64)
        requires
            old(self).wf(),
        ensures
            final(self).wf(),
            final(self).spec_next_id() == old(self).spec_next_id(),
            !has_user_id(old(self)@, user_id) ==> final(self)@ == old(self)@,
            has_user_id(old(self)@, user_id) ==> exists|i: int|
                0 <= i < old(self)@.len() && old(self)@[i].user_id == user_id && final(self)@
                    == old(self)@.update(
                    i,
                    (UserLogin { deleted_at: Some(now), ..old(self)@[i] }),
                ),
    {
        match self.find_by_user_id(user_id) {
            Some(i) => {
                let mut row = self.rows[i].clone();
                row.deleted_at = Some(now);
                self.rows[i] = row;
                proof {
                    assert(0 <= (i as int) < old(self)@.len() && old(self)@[i as int].user_id
                        == user_id && self@ == old(self)@.update(
                        i as int,
                        (UserLogin { deleted_at: Some(now), ..old(self)@[i as int] }),
                    ));
                }
            },
            None => {},
        }
    }

    /// Whether the given password is the account's password. `PasswordNotSet`
    /// when a reset wiped the stored hash; a stored hash that cannot verify
    /// at all is an internal failure, never an accepted login.
    pub fn is_password_correct(&self, username: &str, password: &str) -> (r: Result<
        bool,
        StoreError,
    >)
        ensures
            !has_username(self@, username@) <==> r == Err::<bool, StoreError>(StoreError::NotFound),
            has_username(self@, username@) ==> (r matches Ok(_) || r == Err::<bool, StoreError>(
                StoreError::PasswordNotSet,
            ) || r == Err::<bool, StoreError>(StoreError::Internal)),
            r matches Ok(b) ==> exists|i: int|
                0 <= i < self@.len() && self@[i].username@ == username@ && (self@[i].password
                    matches Some(h) && b == codec::password_matches(password@, h@)),
            r == Err::<bool, StoreError>(StoreError::PasswordNotSet) ==> exists|i: int|
                0 <= i < self@.len() && self@[i].username@ == username@ && self@[i].password
                    is None,
            r == Err::<bool, StoreError>(StoreError::Internal) ==> exists|i: int|
                0 <= i < self@.len() && self@[i].username@ == username@ && (self@[i].password
                    matches Some(h) && !codec::password_matches(password@, h@)),
    {
        let i = match self.find_by_username(username) {
            Some(i) => i,
            None => {
                return Err(StoreError::NotFound);
            },
        };
        proof {
            assert(has_username(self@, username@)) by {
                assert(0 <= (i as int) < self@.len() && self@[i as int].username@ == username@);
            }
        }
        match &self.rows[i].password {
            Some(h) => {
                match codec::verify_password(password, h.as_str()) {
                    Ok(b) => {
                        proof {
                            assert(0 <= (i as int) < self@.len() && self@[i as int].username@
                                == username@ && (self@[i as int].password matches Some(hh) && b
                                == codec::password_matches(password@, hh@)));
                        }
                        Ok(b)
                    },
                    Err(_) => Err(StoreError::Internal),
                }
            },
            None => Err(StoreError::PasswordNotSet),
        }
    }

    /// Re-hashes and stores a new password for this username. An unmatched
    /// username is a silent no-op, as an unmatched `UPDATE` is.
    pub fn set_password(&mut self, username: &str, password: &str) -> (r: Result<(), StoreError>)
        requires
            old(self).wf(),
        ensures
            final(self).wf(),
            final(self).spec_next_id() == old(self).spec_next_id(),
            r matches Err(e) ==> e == StoreError::Internal && final(self)@ == old(self)@,
            r matches Ok(_) && !has_username(old(self)@, username@) ==> final(self)@ == old(self)@,
            r matches Ok(_) && has_username(old(self)@, username@) ==> exists|i: int, h: String|
                0 <= i < old(self)@.len() && old(self)@[i].username@ == username@
                    && codec::password_matches(password@, h@) && final(self)@ == old(self)@.update(i, (UserLogin { password: Some(h), ..old(self)@[i] })),
    {
        let i = match self.find_by_username(username) {
            Some(i) => i,
            None => {
                return Ok(());
            },
        };
        let h = match codec::hash_password(password) {
            Ok(h) => h,
            Err(_) => {
                return Err(StoreError::Internal);
            },
        };
        let ghost hg = h;
        let mut row = self.rows[i].clone();
        row.password = Some(h);
        self.rows[i] = row;
        proof {
            assert(0 <= (i as int) < old(self)@.len() && old(self)@[i as int].username@ == username@
                && codec::password_matches(password@, hg@) && self@ == old(self)@.update(
                i as int,
                (UserLogin { password: Some(hg), ..old(self)@[i as int] }),
            ));
        }
        Ok(())
    }

    /// Re-hashes and stores a new password for this account id.
    pub fn set_password_by_user_id(&mut self, user_id: i64, password: &str) -> (r: Result<
        (),
        StoreError,
    >)
        requires
            old(self).wf(),
        ensures
            final(self).wf(),
            final(self).spec_next_id() == old(self).spec_next_id(),
            r matches Err(e) ==> e == StoreError::Internal && final(self)@ == old(self)@,
            r matches Ok(_) && !has_user_id(old(self)@, user_id) ==> final(self)@ == old(self)@,
            r matches Ok(_) && has_user_id(old(self)@, user_id) ==> exists|i: int, h: String|
                0 <= i < old(self)@.len() && old(self)@[i].user_id == user_id
                    && codec::password_matches(password@, h@) && final(self)@ == old(self)@.update(i, (UserLogin { password: Some(h), ..old(self)@[i] })),
    {
        let i = match self.find_by_user_id(user_id) {
            Some(i) => i,
            None => {
                return Ok(());
            },
        };
        let h = match codec::hash_password(password) {
            Ok(h) => h,
            Err(_) => {
                return Err(StoreError::Internal);
            },
        };
        let ghost hg = h;
        let mut row = self.rows[i].clone();
        row.password = Some(h);
        self.rows[i] = row;
        proof {
            assert(0 <= (i as int) < old(self)@.len() && old(self)@[i as int].user_id == user_id
                && codec::password_matches(password@, hg@) && self@ == old(self)@.update(
                i as int,
                (UserLogin { password: Some(hg), ..old(self)@[i as int] }),
            ));
        }
        Ok(())
    }

    /// Wipes the stored password hash: the account cannot log in until a new
    /// password is set.
    pub fn reset_password(&mut self, username: &str)
        requires
            old(self).wf(),
        ensures
            final(self).wf(),
            final(self).spec_next_id() == old(self).spec_next_id(),
            !has_username(old(self)@, username@) ==> final(self)@ == old(self)@,
            has_username(old(self)@, username@) ==> exists|i: int|
                0 <= i < old(self)@.len() && old(self)@[i].username@ == username@ && final(self)@
                    == old(self)@.update(i, (UserLogin { password: None, ..old(self)@[i] })),
    {
        match self.find_by_username(username) {
            Some(i) => {
                let mut row = self.rows[i].clone();
                row.password = None;
                self.rows[i] = row;
                proof {
                    assert(0 <= (i as int) < old(self)@.len() && old(self)@[i as int].username@
                        == username@ && self@ == old(self)@.update(
                        i as int,
                        (UserLogin { password: None, ..old(self)@[i as int] }),
                    ));
                }
            },
            None => {},
        }
    }

    /// Flags the account's email as verified and records when.
    pub fn mark_email_verified(&mut self, user_id: i64, now: i64)
        requires
            old(self).wf(),
        ensures
            final(self).wf(),
            final(self).spec_next_id() == old(self).spec_next_id(),
            !has_user_id(old(self)@, user_id) ==> final(self)@ == old(self)@,
            has_user_id(old(self)@, user_id) ==> exists|i: int|
                0 <= i < old(self)@.len() && old(self)@[i].user_id == user_id && final(self)@
                    == old(self)@.update(
                    i,
                    (UserLogin {
                        email_verified: true,
                        email_verified_at: Some(now),
                        ..old(self)@[i]
                    }),
                ),
    {
        match self.find_by_user_id(user_id) {
            Some(i) => {
                let mut row = self.rows[i].clone();
                row.email_verified = true;
                row.email_verified_at = Some(now);
                self.rows[i] = row;
                proof {
                    assert(0 <= (i as int) < old(self)@.len() && old(self)@[i as int].user_id
                        == user_id && self@ == old(self)@.update(
                        i as int,
                        (UserLogin {
                            email_verified: true,
                            email_verified_at: Some(now),
                            ..old(self)@[i as int]
                        }),
                    ));
                }
            },
            None => {},
        }
    }

    /// Sets or clears the reset-pending flag.
    pub fn set_password_reset_flag(&mut self, user_id: i64, flag: bool)
        requires
            old(self).wf(),
        ensures
            final(self).wf(),
            final(self).spec_next_id() == old(self).spec_next_id(),
            !has_user_id(old(self)@, user_id) ==> final(self)@ == old(self)@,
            has_user_id(old(self)@, user_id) ==> exists|i: int|
                0 <= i < old(self)@.len() && old(self)@[i].user_id == user_id && final(self)@
                    == old(self)@.update(
                    i,
                    (UserLogin { password_reset: flag, ..old(self)@[i] }),
                ),
    {
        match self.find_by_user_id(user_id) {
            Some(i) => {
                let mut row = self.rows[i].clone();
                row.password_reset = flag;
                self.rows[i] = row;
                proof {
                    assert(0 <= (i as int) < old(self)@.len() && old(self)@[i as int].user_id
                        == user_id && self@ == old(self)@.update(
                        i as int,
                        (UserLogin { password_reset: flag, ..old(self)@[i as int] }),
                    ));
                }
            },
            None => {},
        }
    }

    /// Sets the account's role. The rule that an admin may not change their
    /// own role is the caller's to enforce, not the store's.
    pub fn set_role(&mut self, user_id: i64, role: UserRole)
        requires
            old(self).wf(),
        ensures
            final(self).wf(),
            final(self).spec_next_id() == old(self).spec_next_id(),
            !has_user_id(old(self)@, user_id) ==> final(self)@ == old(self)@,
            has_user_id(old(self)@, user_id) ==> exists|i: int|
                0 <= i < old(self)@.len() && old(self)@[i].user_id == user_id && final(self)@
                    == old(self)@.update(i, (UserLogin { role, ..old(self)@[i] })),
    {
        match self.find_by_user_id(user_id) {
            Some(i) => {
                let mut row = self.rows[i].clone();
                row.role = role;
                self.rows[i] = row;
                proof {
                    assert(0 <= (i as int) < old(self)@.len() && old(self)@[i as int].user_id
                        == user_id && self@ == old(self)@.update(
                        i as int,
                        (UserLogin { role, ..old(self)@[i as int] }),
                    ));
                }
            },
            None => {},
        }
    }


    /// Replaces the account's email. An email held by another account is
    /// refused, as the schema's uniqueness constraint would; an unmatched
    /// username is a silent no-op, as an unmatched `UPDATE` is.
    pub fn set_email(&mut self, username: &str, new_email: &str) -> (r: Result<(), StoreError>)
        requires
            old(self).wf(),
        ensures
            final(self).wf(),
            final(self).spec_next_id() == old(self).spec_next_id(),
            email_taken_by_other(old(self)@, new_email@, username@) ==> (r == Err::<
                (),
                StoreError,
            >(StoreError::EmailTaken) && final(self)@ == old(self)@),
            !email_taken_by_other(old(self)@, new_email@, username@) && !has_username(
                old(self)@,
                username@,
            ) ==> (r == Ok::<(), StoreError>(()) && final(self)@ == old(self)@),
            !email_taken_by_other(old(self)@, new_email@, username@) && has_username(
                old(self)@,
                username@,
            ) ==> r == Ok::<(), StoreError>(()) && exists|i: int|
                0 <= i < old(self)@.len() && (#[trigger] old(self)@[i]).username@ == username@
                    && final(self)@ == old(self)@.update(i, final(self)@[i]) && final(self)@[i].email@ == new_email@ && final(self)@[i].username@ == username@ && final(self)@[i].user_id == old(self)@[i].user_id && final(self)@[i].password == old(self)@[i].password && final(self)@[i].email_verified == old(self)@[i].email_verified
                    && final(self)@[i].role == old(self)@[i].role,
    {
        match self.find_by_email(new_email) {
            Some(j) => {
                if !str_eq(self.rows[j].username.as_str(), username) {
                    proof {
                        assert(0 <= (j as int) < self@.len() && self@[j as int].email@
                            == new_email@ && self@[j as int].username@ != username@);
                    }
                    return Err(StoreError::EmailTaken);
                }
                proof {
                    assert forall|i: int|
                        0 <= i < self@.len() && self@[i].email@
                            == new_email@ implies self@[i].username@ == username@ by {
                        if i != j as int {
                            assert(self@[i].email@ != self@[j as int].email@);
                        }
                    }
                }
            },
            None => {},
        }
        match self.find_by_username(username) {
            Some(i) => {
                let mut row = self.rows[i].clone();
                row.email = new_email.to_owned();
                self.rows[i] = row;
                proof {
                    assert(0 <= (i as int) < old(self)@.len() && old(self)@[i as int].username@
                        == username@ && self@ == old(self)@.update(i as int, self@[i as int])
                        && self@[i as int].email@ == new_email@);
                }
            },
            None => {},
        }
        Ok(())
    }

    /// Renames the account. A username held by another account is refused;
    /// an unmatched old username is a silent no-op.
    pub fn change_username(&mut self, username: &str, new_username: &str) -> (r: Result<
        (),
        StoreError,
    >)
        requires
            old(self).wf(),
        ensures
            final(self).wf(),
            final(self).spec_next_id() == old(self).spec_next_id(),
            has_username(old(self)@, new_username@) && new_username@ != username@ ==> (r == Err::<
                (),
                StoreError,
            >(StoreError::UsernameTaken) && final(self)@ == old(self)@),
            (!has_username(old(self)@, new_username@) || new_username@ == username@)
                && !has_username(old(self)@, username@) ==> (r == Ok::<(), StoreError>(())
                && final(self)@ == old(self)@),
            (!has_username(old(self)@, new_username@) || new_username@ == username@)
                && has_username(old(self)@, username@) ==> r == Ok::<(), StoreError>(())
                && exists|i: int|
                0 <= i < old(self)@.len() && (#[trigger] old(self)@[i]).username@ == username@
                    && final(self)@ == old(self)@.update(i, final(self)@[i]) && final(self)@[i].username@ == new_username@ && final(self)@[i].email@ == old(self)@[i].email@
                    && final(self)@[i].user_id == old(self)@[i].user_id && final(self)@[i].password
                    == old(self)@[i].password,
    {
        match self.find_by_username(new_username) {
            Some(j) => {
                if !str_eq(self.rows[j].username.as_str(), username) {
                    proof {
                        assert(0 <= (j as int) < self@.len() && self@[j as int].username@
                            == new_username@ && self@[j as int].username@ != username@);
                    }
                    return Err(StoreError::UsernameTaken);
                }
            },
            None => {},
        }
        match self.find_by_username(username) {
            Some(i) => {
                let mut row = self.rows[i].clone();
                row.username = new_username.to_owned();
                self.rows[i] = row;
                proof {
                    assert(0 <= (i as int) < old(self)@.len() && old(self)@[i as int].username@
                        == username@ && self@ == old(self)@.update(i as int, self@[i as int])
                        && self@[i as int].username@ == new_username@);
                }
            },
            None => {},
        }
        Ok(())
    }

    /// Deletes every account that is still unverified and whose id stands
    /// in `ids`. The cleanup sweep uses this for accounts whose verification
    /// token lapsed; verified accounts are never touched.
    pub fn delete_unverified_among(&mut self, ids: &Vec<i64>)
        requires
            old(self).wf(),
        ensures
            final(self).wf(),
            final(self)@ == spec_remove_unverified_in(old(self)@, ids@),
            final(self).spec_next_id() == old(self).spec_next_id(),
    {
        let n = self.rows.len();
        let mut kept: Vec<UserLogin> = Vec::new();
        let mut i: usize = 0;
        while i < n
            invariant
                self == old(self),
                n == self@.len(),
                i <= n,
                kept@ == spec_remove_unverified_in(self@.take(i as int), ids@),
            decreases n - i,
        {
            if self.rows[i].email_verified || !contains_id(ids, self.rows[i].user_id) {
                let row = self.rows[i].clone();
                kept.push(row);
            }
            proof {
                assert(self@.take(i + 1).drop_last() =~= self@.take(i as int));
                assert(self@.take(i + 1).last() == self@[i as int]);
            }
            i = i + 1;
        }
        proof {
            assert(self@.take(n as int) =~= self@);
        }
        self.rows = kept;
        proof {
            lemma_remove_unverified_in_wf(old(self)@, ids@, old(self).spec_next_id());
        }
    }

    /// The ids among `ids` that belong to a still-unverified account: the
    /// accounts an expired-verification sweep will purge, and whose
    /// dependent rows the caller must cascade onto.
    pub fn unverified_among(&self, ids: &Vec<i64>) -> (r: Vec<i64>)
        ensures
            forall|id: i64| #[trigger] r@.contains(id) <==> (ids@.contains(id) && exists|j: int|
                0 <= j < self@.len() && (#[trigger] self@[j]).user_id == id
                    && !self@[j].email_verified),
    {
        let n = self.rows.len();
        let mut out: Vec<i64> = Vec::new();
        let mut i: usize = 0;
        while i < n
            invariant
                n == self@.len(),
                i <= n,
                forall|id: i64| #[trigger] out@.contains(id) <==> (ids@.contains(id) && exists|
                    j: int,
                |
                    0 <= j < i && (#[trigger] self@[j]).user_id == id
                        && !self@[j].email_verified),
            decreases n - i,
        {
            let ghost out0 = out@;
            if !self.rows[i].email_verified && contains_id(ids, self.rows[i].user_id) {
                let id = self.rows[i].user_id;
                out.push(id);
                proof {
                    assert forall|x: i64| #[trigger] out@.contains(x) implies (ids@.contains(x)
                        && exists|j: int|
                        0 <= j < i + 1 && (#[trigger] self@[j]).user_id == x
                            && !self@[j].email_verified) by {
                        let k = choose|k: int| 0 <= k < out@.len() && out@[k] == x;
                        if k < out0.len() {
                            assert(out0[k] == x);
                            assert(out0.contains(x));
                        } else {
                            assert(self@[i as int].user_id == x
                                && !self@[i as int].email_verified);
                        }
                    }
                    assert forall|x: i64|
                        (ids@.contains(x) && exists|j: int|
                            0 <= j < i + 1 && (#[trigger] self@[j]).user_id == x
                                && !self@[j].email_verified) implies #[trigger] out@.contains(
                        x,
                    ) by {
                        let j = choose|j: int|
                            0 <= j < i + 1 && self@[j].user_id == x && !self@[j].email_verified;
                        if j < i {
                            assert(out0.contains(x));
                            let k = choose|k: int| 0 <= k < out0.len() && out0[k] == x;
                            assert(out@[k] == x);
                        } else {
                            assert(out@[out@.len() - 1] == x);
                        }
                    }
                }
            } else {
                proof {
                    assert forall|x: i64|
                        (ids@.contains(x) && exists|j: int|
                            0 <= j < i + 1 && (#[trigger] self@[j]).user_id == x
                                && !self@[j].email_verified) implies #[trigger] out@.contains(
                        x,
                    ) by {
                        let j = choose|j: int|
                            0 <= j < i + 1 && self@[j].user_id == x && !self@[j].email_verified;
                        assert(0 <= j < i && self@[j].user_id == x && !self@[j].email_verified);
                    }
                }
            }
            i = i + 1;
        }
        out
    }

    /// Every account row, in insertion order.
    pub fn get_all_users(&self) -> (r: Vec<UserLogin>)
        ensures
            r@ == self@,
    {
        let n = self.rows.len();
        let mut out: Vec<UserLogin> = Vec::new();
        let mut i: usize = 0;
        while i < n
            invariant
                n == self@.len(),
                i <= n,
                out@ =~= self@.take(i as int),
            decreases n - i,
        {
            let row = self.rows[i].clone();
            out.push(row);
            proof {
                assert(self@.take(i + 1).drop_last() =~= self@.take(i as int));
                assert(self@.take(i + 1).last() == self@[i as int]);
                assert(out@ =~= self@.take(i + 1));
            }
            i = i + 1;
        }
        proof {
            assert(self@.take(n as int) =~= self@);
        }
        out
    }
}

} // verus!
