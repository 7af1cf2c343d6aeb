//! Logging in: where the user is sent.

use vstd::prelude::*;
use vstd::string::*;

verus! {

/// The query of the login page.
#[derive(Clone, Debug)]
pub struct LoginOptions {
    pub to: Option<String>,
    pub login_failed: Option<bool>,
}

/// The form of the login page.
#[derive(Clone, Debug)]
pub struct LoginForm {
    pub email: String,
    pub password: String,
    pub next: Option<String>,
}

/// What the login page shows, or where it sends the caller instead.
#[derive(Clone, Copy, Debug, PartialEq, Eq, Structural)]
pub enum LoginPage {
    /// There are no users yet: the first administrator is to be created.
    CreateAdmin,
    /// The caller is logged in already.
    Home,
    /// The form, with a note if the last attempt failed.
    Form { login_failed: bool },
}

impl LoginOptions {
    /// Decides what the login page shows. `any_users` says whether there is
    /// any user, and `logged_in` whether the caller is logged in.
    pub fn page(&self, any_users: bool, logged_in: bool) -> (page: LoginPage)
        ensures
            page == (if !any_users {
                LoginPage::CreateAdmin
            } else if logged_in {
                LoginPage::Home
            } else {
                LoginPage::Form { login_failed: self.login_failed == Some(true) }
            }),
    {
        if !any_users {
            LoginPage::CreateAdmin
        } else if logged_in {
            LoginPage::Home
        } else {
            let login_failed = match self.login_failed {
                Some(failed) => failed,
                None => false,
            };
            LoginPage::Form { login_failed }
        }
    }
}

/// Where someone goes who has logged in and is to go on to `next`: there,
/// or first to the page that replaces a default password.
pub open spec fn address_after_login(next: Option<String>, password_is_default: bool) -> Seq<char> {
    let next = match next {
        Some(n) => n@,
        None => Seq::empty(),
    };
    if password_is_default {
        "/replace_default_password?next="@ + next
    } else {
        next
    }
}

/// Where someone goes whose login failed.
pub open spec fn address_after_failure(next: Option<String>) -> Seq<char> {
    match next {
        Some(n) => "/login?login_failed=true"@ + "&to="@ + n@,
        None => "/login?login_failed=true"@,
    }
}

/// Where someone is sent after an attempt to log in. `logged_in` says
/// whether it succeeded, and then whether the password is a default
/// password.
pub fn login_redirect(logged_in: Option<bool>, next: &Option<String>) -> (address: String)
    ensures
        address@ == match logged_in {
            Some(password_is_default) => address_after_login(*next, password_is_default),
            None => address_after_failure(*next),
        },
{
    match logged_in {
        Some(password_is_default) => {
            let mut address = if password_is_default {
                String::from_str("/replace_default_password?next=")
            } else {
                String::new()
            };
            let ghost before = address@;
            match next {
                Some(n) => {
                    address.append(n.as_str());
                },
                None => {
                    assert(before + Seq::<char>::empty() =~= before);
                },
            }
            assert(Seq::<char>::empty() + address@ =~= address@);
            address
        },
        None => {
            let mut address = String::from_str("/login?login_failed=true");
            match next {
                Some(n) => {
                    address.append("&to=");
                    address.append(n.as_str());
                },
                None => {},
            }
            address
        },
    }
}

} // verus!
