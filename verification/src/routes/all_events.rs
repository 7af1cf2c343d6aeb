//! Listing and adding events: what is made of the forms.

use crate::data::event::AddEvent;
use crate::data::{optional_text, parse_optional_id, uuid_parsed};
use crate::error::{DenimError, DenimResult};
use vstd::prelude::*;
use vstd::string::*;

verus! {

/// The form that adds an event.
#[derive(Clone, Debug)]
pub struct NewEventForm {
    pub name: String,
    pub date: String,
    pub location: String,
    pub extra_info: String,
    pub associated_staff_member: String,
}

/// The query that says which events to list.
#[derive(Clone, Debug)]
pub struct FuturePastFilterQuery {
    pub future: Option<String>,
    pub past: Option<String>,
}

/// A date and a time of day as a calendar and a clock show them, without a
/// time zone.
#[derive(Clone, Copy, Debug, PartialEq, Eq, Structural)]
pub struct CivilDateTime {
    pub year: i16,
    pub month: i8,
    pub day: i8,
    pub hour: i8,
    pub minute: i8,
    pub second: i8,
    pub subsec_nanosecond: i32,
}

/// Why `jiff` could not read a date. Nothing of what it holds is visible
/// here.
#[verifier::external_type_specification]
#[verifier::external_body]
pub struct ExJiffError(jiff::Error);

/// The patterns by which dates are read.
#[derive(Clone, Copy, Debug, PartialEq, Eq, Structural)]
pub enum DatePattern {
    /// Year, month and day, the letter `T`, hour and minute, as a form sends
    /// them.
    Form,
    /// Day, month and year, a space, hour and minute, as an uploaded file
    /// holds them.
    File,
}

impl DatePattern {
    /// This pattern as `jiff` takes it.
    pub open spec fn spec_format(self) -> Seq<char> {
        match self {
            DatePattern::Form => "%Y-%m-%dT%H:%M"@,
            DatePattern::File => "%d-%m-%Y %H:%M"@,
        }
    }

    /// This pattern as `jiff` takes it.
    pub fn format(self) -> (format: &'static str)
        ensures
            format@ == self.spec_format(),
    {
        match self {
            DatePattern::Form => "%Y-%m-%dT%H:%M",
            DatePattern::File => "%d-%m-%Y %H:%M",
        }
    }
}

/// The date and time that `input` stands for when read by the pattern
/// `format`, as `jiff` reads it; nothing where `input` does not fit the
/// pattern or names no date.
pub uninterp spec fn strptime_parsed(format: Seq<char>, input: Seq<char>) -> Option<CivilDateTime>;

/// `jiff::civil::DateTime::strptime`, with the parts of what it read taken
/// out. Trusted: what it reads is the named function of pattern and input.
/// It is asked only for the two patterns of numbers that the service reads.
#[verifier::external_body]
fn civil_strptime(format: &str, input: &str) -> (read: Result<CivilDateTime, jiff::Error>)
    requires
        format@ == DatePattern::Form.spec_format() || format@ == DatePattern::File.spec_format(),
    ensures
        read matches Ok(dt) ==> strptime_parsed(format@, input@) == Some(dt),
        read is Err ==> strptime_parsed(format@, input@) is None,
{
    match jiff::civil::DateTime::strptime(format, input) {
        Ok(dt) => Ok(
            CivilDateTime {
                year: dt.year(),
                month: dt.month(),
                day: dt.day(),
                hour: dt.hour(),
                minute: dt.minute(),
                second: dt.second(),
                subsec_nanosecond: dt.subsec_nanosecond(),
            },
        ),
        Err(e) => Err(e),
    }
}

/// The `Display` of `jiff::Error`: the text of the failure. Trusted, and
/// nothing is promised of the text.
#[verifier::external_body]
fn jiff_error_text(error: &jiff::Error) -> (text: String) {
    error.to_string()
}

/// Reads `input` as a date and time by `pattern`. An input that does not
/// fit is refused, and comes back in the failure.
pub fn parse_civil(pattern: DatePattern, input: String) -> (read: DenimResult<CivilDateTime>)
    ensures
        match strptime_parsed(pattern.spec_format(), input@) {
            Some(dt) => read == Ok::<CivilDateTime, DenimError>(dt),
            None => read matches Err(DenimError::ParseTime { original, .. }) && original == input,
        },
{
    match civil_strptime(pattern.format(), input.as_str()) {
        Ok(dt) => Ok(dt),
        Err(e) => Err(DenimError::ParseTime { source: jiff_error_text(&e), original: input }),
    }
}

/// An event as a form asks for it, before its date is tied to a time zone.
#[derive(Clone, Debug)]
pub struct EventRequest {
    pub name: String,
    pub date: CivilDateTime,
    pub location: Option<String>,
    pub extra_info: Option<String>,
    pub associated_staff_member: Option<u128>,
}

impl NewEventForm {
    /// The event that the form asks for. The date has to fit the pattern of
    /// the form; an empty location or information stands for none; and the
    /// member of staff is none if the field is empty, and must be an
    /// identifier otherwise.
    pub fn into_request(self) -> (request: DenimResult<EventRequest>)
        ensures
            match strptime_parsed(DatePattern::Form.spec_format(), self.date@) {
                None => request matches Err(DenimError::ParseTime { original, .. }) && original
                    == self.date,
                Some(date) => if self.associated_staff_member@.len() > 0 && uuid_parsed(
                    self.associated_staff_member@,
                ) is None {
                    request matches Err(DenimError::ParseUuid { original, .. }) && original
                        == self.associated_staff_member
                } else {
                    request matches Ok(r) && r.name == self.name && r.date == date && r.location
                        == (if self.location@.len() == 0 {
                        None
                    } else {
                        Some(self.location)
                    }) && r.extra_info == (if self.extra_info@.len() == 0 {
                        None
                    } else {
                        Some(self.extra_info)
                    }) && r.associated_staff_member == (if self.associated_staff_member@.len()
                        == 0 {
                        None
                    } else {
                        uuid_parsed(self.associated_staff_member@)
                    })
                },
            },
    {
        let date = match parse_civil(DatePattern::Form, self.date) {
            Ok(date) => date,
            Err(e) => {
                return Err(e);
            },
        };
        let location = optional_text(self.location);
        let extra_info = optional_text(self.extra_info);
        let associated_staff_member = match parse_optional_id(self.associated_staff_member) {
            Ok(id) => id,
            Err(e) => {
                return Err(e);
            },
        };
        Ok(EventRequest { name: self.name, date, location, extra_info, associated_staff_member })
    }
}

impl EventRequest {
    /// What is to be added for this request once its date is known as the
    /// moment `date` in the time zone `tz`.
    pub fn into_add_event(self, date: i64, tz: String) -> (event: AddEvent)
        ensures
            event.name == self.name,
            event.date == date,
            event.tz == tz,
            event.location == self.location,
            event.extra_info == self.extra_info,
            event.associated_staff_member == self.associated_staff_member,
    {
        AddEvent {
            name: self.name,
            date,
            tz,
            location: self.location,
            extra_info: self.extra_info,
            associated_staff_member: self.associated_staff_member,
        }
    }
}

/// Which events a listing shows.
#[derive(Clone, Copy, Debug, PartialEq, Eq, Structural)]
pub struct EventsShown {
    pub future: bool,
    pub past: bool,
}

impl FuturePastFilterQuery {
    /// Which events the query asks for: those to come if it names `future`,
    /// those gone by if it names `past`.
    pub fn shown(&self) -> (shown: EventsShown)
        ensures
            shown == (EventsShown { future: self.future is Some, past: self.past is Some }),
    {
        EventsShown { future: self.future.is_some(), past: self.past.is_some() }
    }
}

} // verus!
