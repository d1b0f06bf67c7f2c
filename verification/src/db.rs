//! The persistent stores: accounts, sessions and the two single-slot token
//! tables, plus the handle that owns them.
//!
//! Every table is modelled as a vector of rows with the schema's key
//! constraints stated as a well-formedness invariant that constructors
//! establish and every operation preserves. Deleting an account cascades to
//! its sessions, tokens and per-user data, as the schema's foreign keys do.

use vstd::prelude::*;

pub mod user_login;
pub mod user_sessions;
pub mod email_verification_tokens;
pub mod password_reset_tokens;
pub mod user_data;

pub use user_login::UserLogin;
pub use user_login::UserLoginTable;
pub use user_login::UserRole;
pub use user_sessions::UserSession;
pub use user_sessions::UserSessionsTable;
pub use email_verification_tokens::EmailVerificationToken;
pub use email_verification_tokens::EmailVerificationTokensTable;
pub use password_reset_tokens::PasswordResetToken;
pub use password_reset_tokens::PasswordResetTokensTable;
pub use user_data::UserData;
pub use user_data::UserDataTable;

verus! {

/// How a store operation can fail.
#[derive(Clone, Copy, Debug, PartialEq, Eq, Structural)]
pub enum StoreError {
    /// No row matches the given key.
    NotFound,
    /// The username is already held by another account.
    UsernameTaken,
    /// The email is already held by another account.
    EmailTaken,
    /// The stored password hash is absent: a reset was initiated and no new
    /// password has been set yet.
    PasswordNotSet,
    /// Hashing failed or a storage-level constraint broke.
    Internal,
}

/// Relies on std's `str` equality: two strings are equal exactly when their
/// character sequences are.
#[verifier::external_body]
pub(crate) fn str_eq(a: &str, b: &str) -> (r: bool)
    ensures
        r == (a@ == b@),
{
    a == b
}

/// Whether a list of account ids holds the given one.
pub(crate) fn contains_id(ids: &Vec<i64>, id: i64) -> (r: bool)
    ensures
        r == ids@.contains(id),
{
    let n = ids.len();
    let mut i: usize = 0;
    while i < n
        invariant
            n == ids@.len(),
            i <= n,
            forall|j: int| 0 <= j < i ==> ids@[j] != id,
        decreases n - i,
    {
        if ids[i] == id {
            proof {
                assert(ids@[i as int] == id);
            }
            return true;
        }
        i = i + 1;
    }
    false
}

/// The handle through which every flow reaches the datastore. Each store is
/// owned here; handing the handle around is the explicit dependency
/// injection that replaces a process-wide singleton.
pub struct DBHandle {
    pub user_login_table: UserLoginTable,
    pub user_sessions_table: UserSessionsTable,
    pub email_verification_tokens_table: EmailVerificationTokensTable,
    pub password_reset_tokens_table: PasswordResetTokensTable,
    pub user_data_table: UserDataTable,
    /// Development mode: cookies lose the `Secure` attribute and links use
    /// the development base URL.
    pub is_dev: bool,
}

impl DBHandle {
    /// All tables well-formed.
    pub open spec fn wf(&self) -> bool {
        &&& self.user_login_table.wf()
        &&& self.user_sessions_table.wf()
        &&& self.email_verification_tokens_table.wf()
        &&& self.password_reset_tokens_table.wf()
        &&& self.user_data_table.wf()
    }

    /// Opens a fresh, empty datastore.
    pub fn new(is_dev: bool) -> (r: DBHandle)
        ensures
            r.wf(),
            r.user_login_table@.len() == 0,
            r.user_login_table.spec_next_id() == 1,
            r.user_sessions_table@.len() == 0,
            r.email_verification_tokens_table@.len() == 0,
            r.password_reset_tokens_table@.len() == 0,
            r.user_data_table@.len() == 0,
            r.is_dev == is_dev,
    {
        DBHandle {
            user_login_table: UserLoginTable::new(),
            user_sessions_table: UserSessionsTable::new(),
            email_verification_tokens_table: EmailVerificationTokensTable::new(),
            password_reset_tokens_table: PasswordResetTokensTable::new(),
            user_data_table: UserDataTable::new(),
            is_dev,
        }
    }

    /// Deletes an account and, as the schema's foreign keys would, every
    /// session, pending token and data row that belongs to it.
    pub fn delete_user_cascade(&mut self, username: &str)
        requires
            old(self).wf(),
        ensures
            final(self).wf(),
            final(self).user_login_table@ == user_login::spec_remove_by_username(
                old(self).user_login_table@,
                username@,
            ),
            final(self).is_dev == old(self).is_dev,
            user_login::has_username(old(self).user_login_table@, username@) ==> (
            exists|i: int|
                0 <= i < old(self).user_login_table@.len()
                    && old(self).user_login_table@[i].username@ == username@ && {
                    let id = old(self).user_login_table@[i].user_id;
                    &&& final(self).user_sessions_table@ == user_sessions::spec_remove_by_user_id(
                        old(self).user_sessions_table@,
                        id,
                    )
                    &&& final(self).email_verification_tokens_table@
                        == email_verification_tokens::spec_remove_by_user_id(
                        old(self).email_verification_tokens_table@,
                        id,
                    )
                    &&& final(self).password_reset_tokens_table@
                        == password_reset_tokens::spec_remove_by_user_id(
                        old(self).password_reset_tokens_table@,
                        id,
                    )
                    &&& final(self).user_data_table@ == user_data::spec_remove_by_user_id(
                        old(self).user_data_table@,
                        id,
                    )
                }),
            !user_login::has_username(old(self).user_login_table@, username@) ==> (
            final(self).user_sessions_table@ == old(self).user_sessions_table@
                && final(self).email_verification_tokens_table@
                == old(self).email_verification_tokens_table@
                && final(self).password_reset_tokens_table@
                == old(self).password_reset_tokens_table@
                && final(self).user_data_table@ == old(self).user_data_table@),
    {
        let found = self.user_login_table.get_user_id_by_username(username);
        self.user_login_table.delete(username);
        match found {
            Ok(id) => {
                self.user_sessions_table.delete_by_user_id(id);
                self.email_verification_tokens_table.delete_by_user_id(id);
                self.password_reset_tokens_table.delete_by_user_id(id);
                self.user_data_table.delete_by_user_id(id);
            },
            Err(_) => {},
        }
    }
}

} // verus!
