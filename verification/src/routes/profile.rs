//! Changes to one's own profile: what is checked of each form.

use vstd::prelude::*;
use vstd::string::*;

verus! {

/// The bit of `ValidationError` that says: the field is empty.
pub const EMPTY: u8 = 0x01;

/// The bit of `ValidationError` that says: the new password and its confirmation differ.
pub const PASSWORDS_NOT_MATCH: u8 = 0x02;

/// The bit of `ValidationError` that says: the current password is wrong.
pub const CURRENT_PASSWORD_INCORRECT: u8 = 0x04;

/// The bit of `ValidationError` that says: the e-mail address is in use.
pub const ALREADY_TAKEN_EMAIL: u8 = 0x08;

/// The bit of `ValidationError` that says: the field has not changed.
pub const SAME_AS_BEFORE: u8 = 0x20;

/// What is wrong with a change to one's own profile.
#[derive(Clone, Copy, Debug, PartialEq, Eq, Structural)]
pub struct ValidationError {
    /// The field is empty.
    pub empty: bool,
    /// The new password and its confirmation differ.
    pub passwords_not_match: bool,
    /// The current password is wrong.
    pub current_password_incorrect: bool,
    /// The e-mail address is in use.
    pub already_taken_email: bool,
    /// The field has not changed.
    pub same_as_before: bool,
}

impl ValidationError {
    /// The value that says that nothing is wrong.
    pub open spec fn spec_empty() -> Self {
        ValidationError { empty: false, passwords_not_match: false, current_password_incorrect: false, already_taken_email: false, same_as_before: false }
    }

    /// The value that says that nothing is wrong.
    pub fn empty() -> (none: Self)
        ensures
            none == Self::spec_empty(),
    {
        ValidationError { empty: false, passwords_not_match: false, current_password_incorrect: false, already_taken_email: false, same_as_before: false }
    }

    /// The bits of this value: the sum of the bits of what it says.
    pub open spec fn spec_bits(self) -> int {
        (if self.empty { EMPTY as int } else { 0 }) + (if self.passwords_not_match { PASSWORDS_NOT_MATCH as int } else { 0 }) + (if self.current_password_incorrect { CURRENT_PASSWORD_INCORRECT as int } else { 0 }) + (if self.already_taken_email { ALREADY_TAKEN_EMAIL as int } else { 0 }) + (if self.same_as_before { SAME_AS_BEFORE as int } else { 0 })
    }

    /// The bits of this value.
    pub fn bits(&self) -> (bits: u8)
        ensures
            bits == self.spec_bits(),
    {
        let mut bits: u8 = 0;
        if self.empty {
            bits = bits + EMPTY;
        }
        if self.passwords_not_match {
            bits = bits + PASSWORDS_NOT_MATCH;
        }
        if self.current_password_incorrect {
            bits = bits + CURRENT_PASSWORD_INCORRECT;
        }
        if self.already_taken_email {
            bits = bits + ALREADY_TAKEN_EMAIL;
        }
        if self.same_as_before {
            bits = bits + SAME_AS_BEFORE;
        }
        bits
    }

    /// The value that says what the bits of `bits` say; bits without a
    /// meaning are dropped.
    pub open spec fn spec_from_bits_truncate(bits: u8) -> Self {
        ValidationError {
            empty: (bits / EMPTY) % 2 == 1,
            passwords_not_match: (bits / PASSWORDS_NOT_MATCH) % 2 == 1,
            current_password_incorrect: (bits / CURRENT_PASSWORD_INCORRECT) % 2 == 1,
            already_taken_email: (bits / ALREADY_TAKEN_EMAIL) % 2 == 1,
            same_as_before: (bits / SAME_AS_BEFORE) % 2 == 1,
        }
    }

    /// The value that says what the bits of `bits` say.
    pub fn from_bits_truncate(bits: u8) -> (flags: Self)
        ensures
            flags == Self::spec_from_bits_truncate(bits),
    {
        ValidationError {
            empty: (bits / EMPTY) % 2 == 1,
            passwords_not_match: (bits / PASSWORDS_NOT_MATCH) % 2 == 1,
            current_password_incorrect: (bits / CURRENT_PASSWORD_INCORRECT) % 2 == 1,
            already_taken_email: (bits / ALREADY_TAKEN_EMAIL) % 2 == 1,
            same_as_before: (bits / SAME_AS_BEFORE) % 2 == 1,
        }
    }

    /// Whether nothing is wrong.
    pub fn is_empty(&self) -> (none: bool)
        ensures
            none == (*self == Self::spec_empty()),
    {
        !self.empty && !self.passwords_not_match && !self.current_password_incorrect && !self.already_taken_email && !self.same_as_before
    }

    /// What this value or `other` says.
    pub fn union(self, other: Self) -> (both: Self)
        ensures
            both == (ValidationError {
            empty: self.empty || other.empty,
            passwords_not_match: self.passwords_not_match || other.passwords_not_match,
            current_password_incorrect: self.current_password_incorrect || other.current_password_incorrect,
            already_taken_email: self.already_taken_email || other.already_taken_email,
            same_as_before: self.same_as_before || other.same_as_before,
            }),
    {
        ValidationError {
            empty: self.empty || other.empty,
            passwords_not_match: self.passwords_not_match || other.passwords_not_match,
            current_password_incorrect: self.current_password_incorrect || other.current_password_incorrect,
            already_taken_email: self.already_taken_email || other.already_taken_email,
            same_as_before: self.same_as_before || other.same_as_before,
        }
    }

    /// The messages for what this value says, in the order in which the
    /// flags are declared.
    pub open spec fn nice_list(self) -> Seq<&'static str> {
        (if self.empty { seq!["Field was empty"] } else { seq![] }) + (if self.passwords_not_match { seq!["Provided passwords do not match"] } else { seq![] }) + (if self.current_password_incorrect { seq!["Provided current password was incorrect"] } else { seq![] }) + (if self.already_taken_email { seq!["Provided email is already in use"] } else { seq![] }) + (if self.same_as_before { seq!["Field was the same as before"] } else { seq![] })
    }

    /// The messages for what this value says, one for each flag that is
    /// set, in the order in which the flags are declared.
    pub fn as_nice_list(&self) -> (list: Vec<&'static str>)
        ensures
            list@ == self.nice_list(),
    {
        let mut list: Vec<&'static str> = Vec::new();
        if self.empty {
            list.push("Field was empty");
        }
        assert(list@ =~= (if self.empty { seq!["Field was empty"] } else { seq![] }));
        if self.passwords_not_match {
            list.push("Provided passwords do not match");
        }
        assert(list@ =~= (if self.empty { seq!["Field was empty"] } else { seq![] }) + (if self.passwords_not_match { seq!["Provided passwords do not match"] } else { seq![] }));
        if self.current_password_incorrect {
            list.push("Provided current password was incorrect");
        }
        assert(list@ =~= (if self.empty { seq!["Field was empty"] } else { seq![] }) + (if self.passwords_not_match { seq!["Provided passwords do not match"] } else { seq![] }) + (if self.current_password_incorrect { seq!["Provided current password was incorrect"] } else { seq![] }));
        if self.already_taken_email {
            list.push("Provided email is already in use");
        }
        assert(list@ =~= (if self.empty { seq!["Field was empty"] } else { seq![] }) + (if self.passwords_not_match { seq!["Provided passwords do not match"] } else { seq![] }) + (if self.current_password_incorrect { seq!["Provided current password was incorrect"] } else { seq![] }) + (if self.already_taken_email { seq!["Provided email is already in use"] } else { seq![] }));
        if self.same_as_before {
            list.push("Field was the same as before");
        }
        assert(list@ =~= (if self.empty { seq!["Field was empty"] } else { seq![] }) + (if self.passwords_not_match { seq!["Provided passwords do not match"] } else { seq![] }) + (if self.current_password_incorrect { seq!["Provided current password was incorrect"] } else { seq![] }) + (if self.already_taken_email { seq!["Provided email is already in use"] } else { seq![] }) + (if self.same_as_before { seq!["Field was the same as before"] } else { seq![] }));
        list
    }

    /// A value is what its bits say.
    pub proof fn bits_say_it_all(self)
        ensures
            0 <= self.spec_bits() <= u8::MAX,
            Self::spec_from_bits_truncate(self.spec_bits() as u8) == self,
    {
    }
}

/// A form with one field.
#[derive(Clone, Debug)]
pub struct SingleItemForm {
    pub item: String,
}

/// The form that changes the password.
#[derive(Clone, Debug)]
pub struct PasswordForm {
    pub current: String,
    pub new: String,
    pub confirmed: String,
}

/// The form that changes the e-mail address.
#[derive(Clone, Debug)]
pub struct EmailForm {
    pub email: String,
}

impl PasswordForm {
    /// What is wrong with the form. `current_is_valid` says whether
    /// `current` is the password that is set; it is true where none is set.
    pub fn validate(&self, current_is_valid: bool) -> (errors: ValidationError)
        ensures
            errors == (ValidationError {
                empty: self.new@.len() == 0,
                passwords_not_match: self.new@ != self.confirmed@,
                current_password_incorrect: !current_is_valid,
                already_taken_email: false,
                same_as_before: self.new@ == self.current@,
            }),
    {
        ValidationError {
            empty: self.new.as_str().is_empty(),
            passwords_not_match: self.new != self.confirmed,
            current_password_incorrect: !current_is_valid,
            already_taken_email: false,
            same_as_before: self.new == self.current,
        }
    }
}

impl ValidationError {
    /// The value that says only that the field is empty.
    pub open spec fn only_empty() -> Self {
        ValidationError { empty: true, ..Self::spec_empty() }
    }

    /// The value that says only that the field has not changed.
    pub open spec fn only_same_as_before() -> Self {
        ValidationError { same_as_before: true, ..Self::spec_empty() }
    }
}

impl SingleItemForm {
    /// What is wrong with a new first name or surname: it is empty, or else
    /// it is the name that is set.
    pub fn validate_name(&self, current: &String) -> (errors: Option<ValidationError>)
        ensures
            errors == (if self.item@.len() == 0 {
                Some(ValidationError::only_empty())
            } else if self.item@ == current@ {
                Some(ValidationError::only_same_as_before())
            } else {
                None
            }),
    {
        let none = ValidationError::empty();
        if self.item.as_str().is_empty() {
            Some(ValidationError { empty: true, ..none })
        } else if self.item == *current {
            Some(ValidationError { same_as_before: true, ..none })
        } else {
            None
        }
    }

    /// The preferred name that the form asks for: none where the field is
    /// empty.
    pub open spec fn pref_name(&self) -> Option<Seq<char>> {
        if self.item@.len() == 0 {
            None
        } else {
            Some(self.item@)
        }
    }

    /// What is wrong with a new preferred name: it is the one that is set,
    /// where an empty field and no preferred name are the same.
    pub fn validate_pref_name(&self, current: &Option<String>) -> (errors: Option<ValidationError>)
        ensures
            errors == (if self.pref_name() == (match *current {
                Some(c) => Some(c@),
                None => None,
            }) {
                Some(ValidationError::only_same_as_before())
            } else {
                None
            }),
    {
        let none = ValidationError::empty();
        let same = match current {
            Some(c) => !self.item.as_str().is_empty() && self.item == *c,
            None => self.item.as_str().is_empty(),
        };
        if same {
            Some(ValidationError { same_as_before: true, ..none })
        } else {
            None
        }
    }
}

impl EmailForm {
    /// What is wrong with a new e-mail address: it is the one that is set.
    pub fn validate(&self, current: &String) -> (errors: Option<ValidationError>)
        ensures
            errors == (if self.email@ == current@ {
                Some(ValidationError::only_same_as_before())
            } else {
                None
            }),
    {
        let none = ValidationError::empty();
        if self.email == *current {
            Some(ValidationError { same_as_before: true, ..none })
        } else {
            None
        }
    }
}

} // verus!
