//! Listing and adding people: what is made of the forms.

use crate::auth::{AuthUtilities, DenimSession};
use crate::data::user::{AddPersonForm, AddUserKind};
use crate::data::{email_address_is_valid, email_is_valid};
use crate::permissions::{Permission, PermissionsTarget};
use crate::text::same_text;
use vstd::prelude::*;
use vstd::string::*;

verus! {

/// The query that says whether the form adds a member of staff.
#[derive(Clone, Copy, Debug)]
pub struct IsStaffQuery {
    pub is_staff: bool,
}

/// The form that adds a member of staff or an administrator.
#[derive(Clone, Debug)]
pub struct NewStaffOrDevForm {
    pub first_name: String,
    pub pref_name: String,
    pub surname: String,
    pub email: String,
    pub generate_password: Option<String>,
    pub is_staff: bool,
}

/// The form that adds a student.
#[derive(Clone, Debug)]
pub struct NewStudentForm {
    pub first_name: String,
    pub pref_name: String,
    pub surname: String,
    pub email: String,
    pub generate_password: Option<String>,
    pub tutor_group: u128,
    pub house: i32,
}

/// The query that names a person to show, with the password that was just
/// drawn for that person, if one was.
#[derive(Clone, Debug)]
pub struct InDetailForm {
    pub id: u128,
    pub new_password: Option<String>,
}

/// Whether a form asks for a password to be drawn: its box is ticked,
/// which the browser sends as `on`.
pub open spec fn asks_for_password(generate_password: Option<String>) -> bool {
    generate_password matches Some(ticked) && ticked@ == "on"@
}

/// Whether a form asks for a password to be drawn.
pub fn wants_password(generate_password: &Option<String>) -> (wanted: bool)
    ensures
        wanted == asks_for_password(*generate_password),
{
    match generate_password {
        Some(ticked) => same_text(ticked.as_str(), "on"),
        None => false,
    }
}

impl NewStaffOrDevForm {
    /// The role that the form adds: a member of staff, if it asks for one
    /// and the caller may create administrators, and an administrator
    /// otherwise.
    pub fn user_kind(&self, session: &DenimSession) -> (kind: AddUserKind)
        ensures
            kind == (if self.is_staff && session.held().contains(Permission::CrudAdmins) {
                AddUserKind::Staff
            } else {
                AddUserKind::Dev
            }),
    {
        let may = session.can(PermissionsTarget::only(Permission::CrudAdmins));
        proof {
            assert(set![Permission::CrudAdmins].subset_of(session.held()) <==> session.held().contains(
                Permission::CrudAdmins,
            )) by {
                assert(set![Permission::CrudAdmins].contains(Permission::CrudAdmins));
            }
        }
        if self.is_staff && may {
            AddUserKind::Staff
        } else {
            AddUserKind::Dev
        }
    }

    /// What is to be added for the form, with `password` as a default
    /// password if one was drawn; nothing where the e-mail address is none.
    pub fn into_person(self, kind: AddUserKind, password: Option<String>) -> (person: Option<
        AddPersonForm,
    >)
        ensures
            person is Some <==> email_is_valid(self.email@),
            person matches Some(p) ==> p.first_name == self.first_name && p.pref_name
                == self.pref_name && p.surname == self.surname && p.email == self.email
                && p.password == password && p.current_password_is_default && p.user_kind == kind,
    {
        if !email_address_is_valid(self.email.as_str()) {
            return None;
        }
        Some(
            AddPersonForm {
                first_name: self.first_name,
                pref_name: self.pref_name,
                surname: self.surname,
                email: self.email,
                password,
                current_password_is_default: true,
                user_kind: kind,
            },
        )
    }
}

impl NewStudentForm {
    /// What is to be added for the form, with `password` as a default
    /// password if one was drawn; nothing where the e-mail address is none.
    pub fn into_person(self, password: Option<String>) -> (person: Option<AddPersonForm>)
        ensures
            person is Some <==> email_is_valid(self.email@),
            person matches Some(p) ==> p.first_name == self.first_name && p.pref_name
                == self.pref_name && p.surname == self.surname && p.email == self.email
                && p.password == password && p.current_password_is_default && p.user_kind == (
            AddUserKind::Student { tutor_group: self.tutor_group, house: self.house }),
    {
        if !email_address_is_valid(self.email.as_str()) {
            return None;
        }
        Some(
            AddPersonForm {
                first_name: self.first_name,
                pref_name: self.pref_name,
                surname: self.surname,
                email: self.email,
                password,
                current_password_is_default: true,
                user_kind: AddUserKind::Student { tutor_group: self.tutor_group, house: self.house },
            },
        )
    }
}

} // verus!
