//! Events and who has signed up to them.

use crate::data::photo::Photo;
use crate::data::user::User;
use vstd::prelude::*;

verus! {

/// One event. `datetime` is the moment of the event in seconds since the
/// Unix epoch, and `tz` the name of the time zone in which it is shown.
#[derive(Debug)]
pub struct Event {
    pub id: u128,
    pub name: String,
    pub datetime: i64,
    pub tz: String,
    pub location: Option<String>,
    pub extra_info: Option<String>,
    pub associated_staff_member: Option<User>,
    pub signed_up: Vec<u128>,
    pub verified: Vec<u128>,
    pub photos: Vec<Photo>,
}

/// What is needed to add an event.
#[derive(Clone, Debug)]
pub struct AddEvent {
    pub name: String,
    pub date: i64,
    pub tz: String,
    pub location: Option<String>,
    pub extra_info: Option<String>,
    pub associated_staff_member: Option<u128>,
}

/// How far a student has come with one event.
#[derive(Debug, Copy, Clone, Eq, PartialEq, Structural)]
pub enum EventSignUpState {
    Nothing,
    SignedUp,
    Verified,
}

/// One student's part in an event: the student, and whether the attendance
/// was verified.
#[derive(Clone, Copy, Debug)]
pub struct Participation {
    pub student_id: u128,
    pub is_verified: bool,
}

impl EventSignUpState {
    /// The state of a student of whom `participation` is recorded: whether
    /// the attendance was verified, or nothing where the student has not
    /// signed up.
    pub fn of_participation(participation: Option<bool>) -> (state: Self)
        ensures
            state == match participation {
                None => EventSignUpState::Nothing,
                Some(false) => EventSignUpState::SignedUp,
                Some(true) => EventSignUpState::Verified,
            },
    {
        match participation {
            None => EventSignUpState::Nothing,
            Some(false) => EventSignUpState::SignedUp,
            Some(true) => EventSignUpState::Verified,
        }
    }
}

/// The students of the first `upto` of `records` whose attendance is
/// verified, if `verified` is set, or is not, if it is not; in the order of
/// the records.
pub open spec fn students_with(records: Seq<Participation>, verified: bool, upto: int) -> Seq<u128>
    decreases upto,
{
    if upto <= 0 {
        Seq::empty()
    } else {
        let before = students_with(records, verified, upto - 1);
        if records[upto - 1].is_verified == verified {
            before.push(records[upto - 1].student_id)
        } else {
            before
        }
    }
}

impl Event {
    /// How far someone has come with an event: nothing to say of someone
    /// who is no student, and else the state that `participation` stands
    /// for.
    pub fn user_is_signed_up_to_event(is_student: bool, participation: Option<bool>) -> (state:
        Option<EventSignUpState>)
        ensures
            state == (if is_student {
                Some(
                    match participation {
                        None => EventSignUpState::Nothing,
                        Some(false) => EventSignUpState::SignedUp,
                        Some(true) => EventSignUpState::Verified,
                    },
                )
            } else {
                None
            }),
    {
        if is_student {
            Some(EventSignUpState::of_participation(participation))
        } else {
            None
        }
    }

    /// Parts the records of an event into the students that have signed up
    /// and those whose attendance is verified, each in the order of the
    /// records.
    pub fn split_participation(records: &Vec<Participation>) -> (parts: (Vec<u128>, Vec<u128>))
        ensures
            parts.0@ == students_with(records@, false, records@.len() as int),
            parts.1@ == students_with(records@, true, records@.len() as int),
    {
        let mut signed_up: Vec<u128> = Vec::new();
        let mut verified: Vec<u128> = Vec::new();
        let mut i: usize = 0;
        while i < records.len()
            invariant
                i <= records@.len(),
                signed_up@ == students_with(records@, false, i as int),
                verified@ == students_with(records@, true, i as int),
            decreases records@.len() - i,
        {
            if records[i].is_verified {
                verified.push(records[i].student_id);
            } else {
                signed_up.push(records[i].student_id);
            }
            i = i + 1;
        }
        (signed_up, verified)
    }
}

} // verus!
