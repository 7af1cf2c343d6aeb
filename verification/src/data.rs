//! The records that the service keeps, and the forms that name them.

pub mod event;
pub mod photo;
pub mod student;
pub mod student_groups;
pub mod user;

use crate::error::{DenimError, DenimResult};
use vstd::prelude::*;
use vstd::string::*;

verus! {

/// A form that names one record by its identifier.
#[derive(Clone, Copy, Debug)]
pub struct IdForm {
    pub id: u128,
}

/// A form that names one record by its number.
#[derive(Clone, Copy, Debug)]
pub struct IntIdForm {
    pub id: i32,
}

/// A query that may narrow a listing by a text.
#[derive(Clone, Debug)]
pub struct FilterQuery {
    pub filter: Option<String>,
}

/// Why `uuid` could not read an identifier. Nothing of what it holds is
/// visible here.
#[verifier::external_type_specification]
#[verifier::external_body]
pub struct ExUuidError(uuid::Error);

/// The identifier that the text `text` stands for, as `uuid` reads it: 32
/// hexadecimal digits, plain or with hyphens between the groups, in braces
/// or as a URN; nothing for any other text.
pub uninterp spec fn uuid_parsed(text: Seq<char>) -> Option<u128>;

/// `uuid::Uuid::try_parse` followed by `uuid::Uuid::as_u128`. Trusted: what
/// it reads is the named function of the text.
#[verifier::external_body]
fn uuid_try_parse(text: &str) -> (id: Result<u128, uuid::Error>)
    ensures
        id matches Ok(v) ==> uuid_parsed(text@) == Some(v),
        id is Err ==> uuid_parsed(text@) is None,
{
    uuid::Uuid::try_parse(text).map(|id| id.as_u128())
}

/// The `Display` of `uuid::Error`: the text of the failure. Trusted, and
/// nothing is promised of the text.
#[verifier::external_body]
fn uuid_error_text(error: &uuid::Error) -> (text: String) {
    error.to_string()
}

/// Reads `text` as an identifier. A text that is none is refused, and comes
/// back in the failure.
pub fn parse_id(text: String) -> (id: DenimResult<u128>)
    ensures
        match uuid_parsed(text@) {
            Some(v) => id == Ok::<u128, DenimError>(v),
            None => id matches Err(DenimError::ParseUuid { original, .. }) && original == text,
        },
{
    match uuid_try_parse(text.as_str()) {
        Ok(v) => Ok(v),
        Err(e) => Err(DenimError::ParseUuid { source: uuid_error_text(&e), original: text }),
    }
}

/// Reads a field that may be left empty: an empty field names no one, and
/// any other field must be an identifier.
pub fn parse_optional_id(text: String) -> (id: DenimResult<Option<u128>>)
    ensures
        text@.len() == 0 ==> id == Ok::<Option<u128>, DenimError>(None),
        text@.len() > 0 ==> match uuid_parsed(text@) {
            Some(v) => id == Ok::<Option<u128>, DenimError>(Some(v)),
            None => id matches Err(DenimError::ParseUuid { original, .. }) && original == text,
        },
{
    if text.as_str().is_empty() {
        Ok(None)
    } else {
        match parse_id(text) {
            Ok(v) => Ok(Some(v)),
            Err(e) => Err(e),
        }
    }
}

/// What a field that may be left empty holds: nothing where it is empty.
pub fn optional_text(text: String) -> (held: Option<String>)
    ensures
        held == (if text@.len() == 0 {
            None
        } else {
            Some(text)
        }),
{
    if text.as_str().is_empty() {
        None
    } else {
        Some(text)
    }
}

/// Whether `text` is an e-mail address, as `email_address` reads one with
/// its default options.
pub uninterp spec fn email_is_valid(text: Seq<char>) -> bool;

/// `email_address::EmailAddress::is_valid`. Trusted: its answer is the
/// named function of the text.
#[verifier::external_body]
pub(crate) fn email_address_is_valid(text: &str) -> (valid: bool)
    ensures
        valid == email_is_valid(text@),
{
    email_address::EmailAddress::is_valid(text)
}

/// The records among the first `upto` of `loaded` that were found, in
/// order.
pub open spec fn found_upto<T>(loaded: Seq<Option<T>>, upto: int) -> Seq<T>
    decreases upto,
{
    if upto <= 0 {
        Seq::empty()
    } else {
        match loaded[upto - 1] {
            Some(record) => found_upto(loaded, upto - 1).push(record),
            None => found_upto(loaded, upto - 1),
        }
    }
}

/// What a listing is made of: of the records that were asked for, one after
/// the other, those that were found. An identifier without a record is
/// passed over.
pub fn keep_found<T>(loaded: Vec<Option<T>>) -> (found: Vec<T>)
    ensures
        found@ == found_upto(loaded@, loaded@.len() as int),
{
    let mut rest = loaded;
    let mut stack: Vec<T> = Vec::new();
    let ghost all = rest@;
    // gather from the end, then turn the result round
    while rest.len() > 0
        invariant
            rest@.len() <= all.len(),
            rest@ == all.take(rest@.len() as int),
            found_upto(all, all.len() as int) == found_upto(all, rest@.len() as int)
                + stack@.reverse(),
        decreases rest@.len(),
    {
        let ghost before = rest@;
        let ghost stacked = stack@;
        match rest.pop() {
            Some(Some(record)) => {
                stack.push(record);
                proof {
                    assert(all[before.len() - 1] == Some(record));
                    assert(stack@.reverse() =~= seq![record] + stacked.reverse());
                    assert(found_upto(all, before.len() as int) == found_upto(
                        all,
                        before.len() - 1,
                    ).push(record));
                    assert(found_upto(all, before.len() - 1).push(record) + stacked.reverse()
                        =~= found_upto(all, before.len() - 1) + stack@.reverse());
                }
            },
            Some(None) => {
                assert(all[before.len() - 1] == None::<T>);
            },
            None => {},
        }
        assert(rest@ =~= all.take(rest@.len() as int));
    }
    let mut found: Vec<T> = Vec::new();
    while stack.len() > 0
        invariant
            found_upto(all, all.len() as int) == found@ + stack@.reverse(),
        decreases stack@.len(),
    {
        let ghost stacked = stack@;
        let ghost done = found@;
        match stack.pop() {
            Some(record) => {
                found.push(record);
                assert(stacked.reverse() =~= seq![record] + stack@.reverse());
                assert(done + stacked.reverse() =~= found@ + stack@.reverse());
            },
            None => {},
        }
    }
    assert(found@ + stack@.reverse() =~= found@);
    found
}

} // verus!
