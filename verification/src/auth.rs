//! The authorisation gate: what the caller of a request may do.

pub mod backend;
pub mod postgres_store;

use crate::data::user::User;
use crate::auth::backend::{bcrypt_verified, hash_password};
use crate::error::{DenimError, DenimResult};
use crate::permissions::{Permission, PermissionsTarget};
use vstd::prelude::*;

verus! {

/// The caller of one request: the user who is logged in, if any.
#[derive(Debug)]
pub struct DenimSession {
    pub user: Option<User>,
}

/// The checks that guard every privileged action. They read the session and
/// change nothing.
pub trait AuthUtilities {
    /// The capabilities that the caller holds.
    spec fn held(&self) -> Set<Permission>;

    /// Whether the caller holds every capability of `needed`.
    fn can(&self, needed: PermissionsTarget) -> (allowed: bool)
        ensures
            allowed <==> needed@.subset_of(self.held()),
    ;

    /// Succeeds if the caller holds every capability of `needed`; otherwise
    /// fails with `needed` itself and with exactly what the caller holds.
    fn ensure_can(&self, needed: PermissionsTarget) -> (checked: DenimResult<()>)
        ensures
            checked is Ok <==> needed@.subset_of(self.held()),
            checked matches Err(e) ==> e matches DenimError::IncorrectPermissions {
                needed: n,
                found: f,
            } && n == needed && f@ == self.held() && f.wf(),
    ;
}

impl DenimSession {
    /// The capabilities of a caller: those of the user's role, and none for a
    /// caller who is not logged in.
    pub open spec fn capabilities(user: Option<User>) -> Set<Permission> {
        match user {
            Some(u) => u.kind.capabilities(),
            None => Set::<Permission>::empty(),
        }
    }

    /// The capabilities that the caller holds.
    pub fn found(&self) -> (held: PermissionsTarget)
        ensures
            held@ == Self::capabilities(self.user),
            held.wf(),
    {
        match &self.user {
            Some(u) => u.get_permissions(),
            None => PermissionsTarget::empty(),
        }
    }
}

impl AuthUtilities for DenimSession {
    open spec fn held(&self) -> Set<Permission> {
        Self::capabilities(self.user)
    }

    fn can(&self, needed: PermissionsTarget) -> (allowed: bool) {
        self.found().contains(needed)
    }

    fn ensure_can(&self, needed: PermissionsTarget) -> (checked: DenimResult<()>) {
        let found = self.found();
        if found.contains(needed) {
            Ok(())
        } else {
            Err(DenimError::IncorrectPermissions { needed, found })
        }
    }
}

/// A user whose password is being set: the whole user, or the identifier
/// alone.
#[derive(Debug)]
pub enum PasswordUserId {
    FullUser(User),
    JustId(u128),
}

impl PasswordUserId {
    /// The identifier of the user that is meant.
    pub open spec fn spec_id(&self) -> u128 {
        match self {
            PasswordUserId::FullUser(u) => u.id,
            PasswordUserId::JustId(i) => *i,
        }
    }

    /// The identifier of the user that is meant.
    pub fn id(&self) -> (id: u128)
        ensures
            id == self.spec_id(),
    {
        match self {
            PasswordUserId::FullUser(u) => u.id,
            PasswordUserId::JustId(i) => *i,
        }
    }

    /// Records that the password of this user was replaced by the one that
    /// hashes to `hashed`. A whole user then carries the new hash and whether
    /// it is a default password; every other field, and a bare identifier,
    /// stay as they were.
    pub fn with_password(self, hashed: String, is_default: bool) -> (updated: Self)
        ensures
            updated.spec_id() == self.spec_id(),
            match self {
                PasswordUserId::FullUser(u) => updated == PasswordUserId::FullUser(
                    User {
                        current_password_is_default: is_default,
                        bcrypt_hashed_password: Some(hashed),
                        ..u
                    },
                ),
                PasswordUserId::JustId(i) => updated == PasswordUserId::JustId(i),
            },
    {
        match self {
            PasswordUserId::FullUser(u) => {
                let mut user = u;
                user.current_password_is_default = is_default;
                user.bcrypt_hashed_password = Some(hashed);
                PasswordUserId::FullUser(user)
            },
            PasswordUserId::JustId(i) => PasswordUserId::JustId(i),
        }
    }
}

/// Sets the password of `current_user` to `password`: hashes it, and records
/// the new hash in the user. Returns the user and the hash, which is to be
/// stored; or the failure of the hashing, in which case nothing has changed.
/// The hash is one that `password` is found to fit, so that the user can log
/// in with it from now on.
pub fn add_password(current_user: PasswordUserId, password: &str, is_default: bool) -> (updated:
    DenimResult<(PasswordUserId, String)>)
    ensures
        updated matches Ok((user, hashed)) ==> user.spec_id() == current_user.spec_id() && (
        current_user matches PasswordUserId::FullUser(u) ==> user == PasswordUserId::FullUser(
            User { current_password_is_default: is_default, bcrypt_hashed_password: Some(hashed), ..u },
        )) && (current_user matches PasswordUserId::JustId(i) ==> user == PasswordUserId::JustId(
            i,
        )) && bcrypt_verified(password@, hashed@) == Some(true),
        updated matches Err(e) ==> e is Bcrypt,
{
    match hash_password(password) {
        Ok(hashed) => {
            let stored = hashed.clone();
            Ok((current_user.with_password(hashed, is_default), stored))
        },
        Err(e) => Err(e),
    }
}

} // verus!
