//! Replacing a default password: what is checked, and where the user is sent.

use crate::text::{decimal, decimal_u8, is_blank, text_is_blank};
use vstd::prelude::*;
use vstd::string::*;

verus! {

/// The bit of `ReplaceDefaultPasswordValidationError` that says: the new password is the default password.
pub const SAME_AS_BEFORE: u8 = 0x01;

/// The bit of `ReplaceDefaultPasswordValidationError` that says: the password and its confirmation differ.
pub const DIDNT_MATCH: u8 = 0x02;

/// The bit of `ReplaceDefaultPasswordValidationError` that says: the new password is blank.
pub const EMPTY: u8 = 0x04;

/// What is wrong with a password that is to replace a default password.
#[derive(Clone, Copy, Debug, PartialEq, Eq, Structural)]
pub struct ReplaceDefaultPasswordValidationError {
    /// The new password is the default password.
    pub same_as_before: bool,
    /// The password and its confirmation differ.
    pub didnt_match: bool,
    /// The new password is blank.
    pub empty_password: bool,
}

impl ReplaceDefaultPasswordValidationError {
    /// The value that says that nothing is wrong.
    pub open spec fn spec_empty() -> Self {
        ReplaceDefaultPasswordValidationError { same_as_before: false, didnt_match: false, empty_password: false }
    }

    /// The value that says that nothing is wrong.
    pub fn empty() -> (none: Self)
        ensures
            none == Self::spec_empty(),
    {
        ReplaceDefaultPasswordValidationError { same_as_before: false, didnt_match: false, empty_password: false }
    }

    /// The bits of this value: the sum of the bits of what it says.
    pub open spec fn spec_bits(self) -> int {
        (if self.same_as_before { SAME_AS_BEFORE as int } else { 0 }) + (if self.didnt_match { DIDNT_MATCH as int } else { 0 }) + (if self.empty_password { EMPTY as int } else { 0 })
    }

    /// The bits of this value.
    pub fn bits(&self) -> (bits: u8)
        ensures
            bits == self.spec_bits(),
    {
        let mut bits: u8 = 0;
        if self.same_as_before {
            bits = bits + SAME_AS_BEFORE;
        }
        if self.didnt_match {
            bits = bits + DIDNT_MATCH;
        }
        if self.empty_password {
            bits = bits + EMPTY;
        }
        bits
    }

    /// The value that says what the bits of `bits` say; bits without a
    /// meaning are dropped.
    pub open spec fn spec_from_bits_truncate(bits: u8) -> Self {
        ReplaceDefaultPasswordValidationError {
            same_as_before: (bits / SAME_AS_BEFORE) % 2 == 1,
            didnt_match: (bits / DIDNT_MATCH) % 2 == 1,
            empty_password: (bits / EMPTY) % 2 == 1,
        }
    }

    /// The value that says what the bits of `bits` say.
    pub fn from_bits_truncate(bits: u8) -> (flags: Self)
        ensures
            flags == Self::spec_from_bits_truncate(bits),
    {
        ReplaceDefaultPasswordValidationError {
            same_as_before: (bits / SAME_AS_BEFORE) % 2 == 1,
            didnt_match: (bits / DIDNT_MATCH) % 2 == 1,
            empty_password: (bits / EMPTY) % 2 == 1,
        }
    }

    /// Whether nothing is wrong.
    pub fn is_empty(&self) -> (none: bool)
        ensures
            none == (*self == Self::spec_empty()),
    {
        !self.same_as_before && !self.didnt_match && !self.empty_password
    }

    /// What this value or `other` says.
    pub fn union(self, other: Self) -> (both: Self)
        ensures
            both == (ReplaceDefaultPasswordValidationError {
            same_as_before: self.same_as_before || other.same_as_before,
            didnt_match: self.didnt_match || other.didnt_match,
            empty_password: self.empty_password || other.empty_password,
            }),
    {
        ReplaceDefaultPasswordValidationError {
            same_as_before: self.same_as_before || other.same_as_before,
            didnt_match: self.didnt_match || other.didnt_match,
            empty_password: self.empty_password || other.empty_password,
        }
    }

    /// The messages for what this value says, in the order in which the
    /// flags are declared.
    pub open spec fn nice_list(self) -> Seq<&'static str> {
        (if self.same_as_before { seq!["Provided password was same as default"] } else { seq![] }) + (if self.didnt_match { seq!["Provided passwords didn't match"] } else { seq![] }) + (if self.empty_password { seq!["Provided password was empty"] } else { seq![] })
    }

    /// The messages for what this value says, one for each flag that is
    /// set, in the order in which the flags are declared.
    pub fn as_nice_list(&self) -> (list: Vec<&'static str>)
        ensures
            list@ == self.nice_list(),
    {
        let mut list: Vec<&'static str> = Vec::new();
        if self.same_as_before {
            list.push("Provided password was same as default");
        }
        assert(list@ =~= (if self.same_as_before { seq!["Provided password was same as default"] } else { seq![] }));
        if self.didnt_match {
            list.push("Provided passwords didn't match");
        }
        assert(list@ =~= (if self.same_as_before { seq!["Provided password was same as default"] } else { seq![] }) + (if self.didnt_match { seq!["Provided passwords didn't match"] } else { seq![] }));
        if self.empty_password {
            list.push("Provided password was empty");
        }
        assert(list@ =~= (if self.same_as_before { seq!["Provided password was same as default"] } else { seq![] }) + (if self.didnt_match { seq!["Provided passwords didn't match"] } else { seq![] }) + (if self.empty_password { seq!["Provided password was empty"] } else { seq![] }));
        list
    }

    /// A value is what its bits say.
    pub proof fn bits_say_it_all(self)
        ensures
            0 <= self.spec_bits() <= u8::MAX,
            Self::spec_from_bits_truncate(self.spec_bits() as u8) == self,
    {
    }
}

/// The query of the page that asks for a new password.
#[derive(Clone, Debug)]
pub struct SetPasswordQuery {
    pub next: String,
    pub validation_errors: Option<u8>,
}

/// The form that brings the new password.
#[derive(Clone, Debug)]
pub struct SetPasswordForm {
    pub next: String,
    pub new_password: String,
    pub confirmed_password: String,
}

impl SetPasswordQuery {
    /// What the query says is wrong: nothing if it names no errors.
    pub fn errors(&self) -> (errors: ReplaceDefaultPasswordValidationError)
        ensures
            errors == match self.validation_errors {
                Some(bits) => ReplaceDefaultPasswordValidationError::spec_from_bits_truncate(bits),
                None => ReplaceDefaultPasswordValidationError::spec_empty(),
            },
    {
        match self.validation_errors {
            Some(bits) => ReplaceDefaultPasswordValidationError::from_bits_truncate(bits),
            None => ReplaceDefaultPasswordValidationError::empty(),
        }
    }
}

impl SetPasswordForm {
    /// What is wrong with the new password. `same_as_before` says whether it
    /// is the password that it is to replace.
    pub fn validate(&self, same_as_before: bool) -> (errors: ReplaceDefaultPasswordValidationError)
        ensures
            errors == (ReplaceDefaultPasswordValidationError {
                same_as_before,
                didnt_match: self.new_password@ != self.confirmed_password@,
                empty_password: is_blank(self.new_password@),
            }),
    {
        ReplaceDefaultPasswordValidationError {
            same_as_before,
            didnt_match: self.new_password != self.confirmed_password,
            empty_password: text_is_blank(self.new_password.as_str()),
        }
    }
}

/// Where someone who is to replace a default password is sent.
#[derive(Clone, Debug)]
pub enum PasswordRedirect {
    /// To the start page: no one is logged in, or the password is no default
    /// password.
    Home,
    /// Back to the form, with what is wrong.
    Retry(String),
    /// The password may be replaced; afterwards the user goes on to `next`.
    Replace,
}

/// The address of the form with `errors`, leading on to `next` afterwards.
pub open spec fn retry_address(next: Seq<char>, errors: ReplaceDefaultPasswordValidationError) -> Seq<
    char,
> {
    "/replace_default_password?next="@ + next + "&validation_errors="@ + decimal(
        errors.spec_bits() as nat,
    )
}

/// Decides where to send someone who submitted a new password. `is_default`
/// says whether a user is logged in whose password is a default password.
pub fn replace_password_redirect(
    is_default: Option<bool>,
    next: &str,
    errors: ReplaceDefaultPasswordValidationError,
) -> (to: PasswordRedirect)
    ensures
        match to {
            PasswordRedirect::Home => is_default != Some(true),
            PasswordRedirect::Retry(address) => is_default == Some(true) && errors
                != ReplaceDefaultPasswordValidationError::spec_empty() && address@ == retry_address(
                next@,
                errors,
            ),
            PasswordRedirect::Replace => is_default == Some(true) && errors
                == ReplaceDefaultPasswordValidationError::spec_empty(),
        },
{
    match is_default {
        Some(true) => {
            if errors.is_empty() {
                PasswordRedirect::Replace
            } else {
                let mut address = String::from_str("/replace_default_password?next=");
                address.append(next);
                address.append("&validation_errors=");
                let bits = decimal_u8(errors.bits());
                address.append(bits.as_str());
                PasswordRedirect::Retry(address)
            }
        },
        _ => PasswordRedirect::Home,
    }
}

} // verus!
