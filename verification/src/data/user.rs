//! Users, their roles, and the capabilities that each role holds.

use crate::data::student_groups::{HouseGroup, TutorGroup};
use crate::permissions::{Permission, PermissionsTarget};
use vstd::prelude::*;
use vstd::string::*;

verus! {

/// The role of a user, with what belongs to that role.
#[derive(Debug)]
pub enum UserKind {
    User,
    Student { tutor_group: TutorGroup, house: HouseGroup, events_participated: Vec<u128> },
    Staff,
    Admin,
}

/// One user, as loaded at one moment. The role does not change while this
/// value lives: to see a change of role, load the user again.
#[derive(Debug)]
pub struct User {
    pub id: u128,
    pub first_name: String,
    pub pref_name: Option<String>,
    pub surname: String,
    pub email: String,
    pub bcrypt_hashed_password: Option<String>,
    pub access_token: Option<String>,
    pub current_password_is_default: bool,
    pub kind: UserKind,
}

/// What is needed to add a user.
#[derive(Clone, Debug)]
pub struct AddPersonForm {
    pub first_name: String,
    pub pref_name: String,
    pub surname: String,
    pub email: String,
    pub password: Option<String>,
    pub current_password_is_default: bool,
    pub user_kind: AddUserKind,
}

/// The role to add a user with.
#[derive(Clone, Copy, Debug)]
pub enum AddUserKind {
    Student { tutor_group: u128, house: i32 },
    Staff,
    Dev,
}

/// The role of a user, without what belongs to it.
#[derive(Clone, Copy, Debug, PartialEq, Eq, Structural)]
pub enum Role {
    User,
    Student,
    Staff,
    Admin,
}

impl Role {
    /// The capabilities of each role. Every role has exactly one set.
    pub open spec fn capabilities(self) -> Set<Permission> {
        match self {
            Role::User => set![Permission::ViewPhotos, Permission::ViewSensitiveDetails],
            Role::Student => set![
                Permission::ViewPhotos,
                Permission::SignSelfUp,
                Permission::ViewSensitiveDetails
            ],
            Role::Staff => Set::<Permission>::full().remove(Permission::ImportCsvs).remove(
                Permission::CrudAdmins,
            ),
            Role::Admin => Set::<Permission>::full(),
        }
    }

    /// The capabilities that this role holds.
    pub fn get_permissions(self) -> (held: PermissionsTarget)
        ensures
            held@ == self.capabilities(),
            held.wf(),
    {
        match self {
            Role::User => {
                let held = PermissionsTarget::only(Permission::ViewPhotos).union(
                    PermissionsTarget::only(Permission::ViewSensitiveDetails),
                );
                assert(held@ =~= self.capabilities());
                held
            },
            Role::Student => {
                let held = PermissionsTarget::only(Permission::ViewPhotos).union(
                    PermissionsTarget::only(Permission::SignSelfUp),
                ).union(PermissionsTarget::only(Permission::ViewSensitiveDetails));
                assert(held@ =~= self.capabilities());
                held
            },
            Role::Staff => {
                let held = PermissionsTarget::all().difference(
                    PermissionsTarget::only(Permission::ImportCsvs),
                ).difference(PermissionsTarget::only(Permission::CrudAdmins));
                assert(held@ =~= self.capabilities());
                held
            },
            Role::Admin => PermissionsTarget::all(),
        }
    }

    /// An administrator holds whatever staff hold, staff whatever a student
    /// holds, and a student whatever a plain user holds.
    pub proof fn roles_are_ordered()
        ensures
            Role::Staff.capabilities().subset_of(Role::Admin.capabilities()),
            Role::Student.capabilities().subset_of(Role::Staff.capabilities()),
            Role::User.capabilities().subset_of(Role::Student.capabilities()),
    {
    }

    /// The role of someone who is or is not recorded as an administrator,
    /// as a member of staff and as a student: the first of these that holds
    /// counts, and someone who is none of them is a plain user.
    pub fn of_membership(is_admin: bool, is_staff: bool, is_student: bool) -> (role: Role)
        ensures
            role == (if is_admin {
                Role::Admin
            } else if is_staff {
                Role::Staff
            } else if is_student {
                Role::Student
            } else {
                Role::User
            }),
    {
        if is_admin {
            Role::Admin
        } else if is_staff {
            Role::Staff
        } else if is_student {
            Role::Student
        } else {
            Role::User
        }
    }
}

impl UserKind {
    /// The role that this is, without what belongs to it.
    pub open spec fn spec_role(&self) -> Role {
        match self {
            UserKind::User => Role::User,
            UserKind::Student { .. } => Role::Student,
            UserKind::Staff => Role::Staff,
            UserKind::Admin => Role::Admin,
        }
    }

    /// The role that this is, without what belongs to it.
    pub fn role(&self) -> (role: Role)
        ensures
            role == self.spec_role(),
    {
        match self {
            UserKind::User => Role::User,
            UserKind::Student { .. } => Role::Student,
            UserKind::Staff => Role::Staff,
            UserKind::Admin => Role::Admin,
        }
    }

    /// The capabilities of this role: what belongs to the role besides does
    /// not matter.
    pub open spec fn capabilities(&self) -> Set<Permission> {
        self.spec_role().capabilities()
    }

    /// The capabilities that this role holds.
    pub fn get_permissions(&self) -> (held: PermissionsTarget)
        ensures
            held@ == self.capabilities(),
            held.wf(),
    {
        self.role().get_permissions()
    }
}

/// The text that `secret` holds, if it holds one.
pub open spec fn shown(secret: Option<&str>) -> Option<Seq<char>> {
    match secret {
        Some(text) => Some(text@),
        None => None,
    }
}

/// What ties a session to a user with this access token and this hash of a
/// password: the access token, or else the hash, or else nothing.
pub fn session_secret<'a>(access_token: Option<&'a str>, hashed_password: Option<&'a str>) -> (secret:
    Option<&'a str>)
    ensures
        secret == match (access_token, hashed_password) {
            (Some(token), _) => Some(token),
            (None, Some(hash)) => Some(hash),
            (None, None) => None,
        },
{
    match access_token {
        Some(token) => Some(token),
        None => hashed_password,
    }
}

impl User {
    /// The capabilities that this user's role holds.
    pub fn get_permissions(&self) -> (held: PermissionsTarget)
        ensures
            held@ == self.kind.capabilities(),
            held.wf(),
    {
        self.kind.get_permissions()
    }

    /// What ties a session to this user: the access token, or else the hash
    /// of the password, or else nothing. A session that was made with
    /// another one is no longer good.
    pub fn session_auth_secret(&self) -> (secret: Option<&str>)
        ensures
            shown(secret) == match (self.access_token, self.bcrypt_hashed_password) {
                (Some(token), _) => Some(token@),
                (None, Some(hash)) => Some(hash@),
                (None, None) => None,
            },
    {
        let token = match &self.access_token {
            Some(token) => Some(token.as_str()),
            None => None,
        };
        let hash = match &self.bcrypt_hashed_password {
            Some(hash) => Some(hash.as_str()),
            None => None,
        };
        session_secret(token, hash)
    }

    /// The name to show for this user: the preferred name, or else the first
    /// name; a space; then the surname, of which a student shows the first
    /// character only.
    pub open spec fn spec_name(&self) -> Seq<char> {
        let first_part = match self.pref_name {
            Some(p) => p@,
            None => self.first_name@,
        };
        let second_part = if self.kind is Student {
            self.surname@.take(if self.surname@.len() >= 1 { 1int } else { 0int })
        } else {
            self.surname@
        };
        first_part + seq![' '] + second_part
    }

    /// The name to show for this user.
    pub fn name(&self) -> (shown: String)
        ensures
            shown@ == self.spec_name(),
    {
        let mut shown = String::new();
        match &self.pref_name {
            Some(p) => shown.append(p.as_str()),
            None => shown.append(self.first_name.as_str()),
        }
        proof {
            reveal_strlit(" ");
        }
        shown.append(" ");
        assert(" "@ =~= seq![' ']);
        let surname = self.surname.as_str();
        match &self.kind {
            UserKind::Student { .. } => {
                if surname.unicode_len() >= 1 {
                    shown.append(surname.substring_char(0, 1));
                    assert(surname@.subrange(0, 1) =~= surname@.take(1));
                } else {
                    assert(surname@.take(0) =~= Seq::<char>::empty());
                    assert(shown@ =~= self.spec_name());
                }
            },
            _ => {
                shown.append(surname);
            },
        }
        shown
    }
}

} // verus!
