//! One event in detail: what a caller sees of it, and what a sign-up or a
//! verification changes.

use crate::auth::{AuthUtilities, DenimSession};
use crate::data::event::EventSignUpState;
use crate::error::{DenimError, DenimResult};
use crate::permissions::{Permission, PermissionsTarget};
use crate::routes::sse::SseEvent;
use vstd::prelude::*;

verus! {

/// The parts of the page of an event that a caller sees.
#[derive(Clone, Copy, Debug, PartialEq, Eq, Structural)]
pub struct EventSections {
    /// The list of who has signed up and whose attendance is verified.
    pub signed_up_list: bool,
    /// In that list, the buttons that verify attendance.
    pub can_verify: bool,
    /// The form that signs other people up.
    pub sign_others_up: bool,
    /// The button that signs the caller up.
    pub sign_up_button: bool,
    /// The photos.
    pub photos: bool,
}

/// What is recorded of one student and one event after a request.
#[derive(Clone, Copy, Debug, PartialEq, Eq, Structural)]
pub enum SignUpChange {
    /// Nothing changes.
    Keep,
    /// The student is signed up.
    SignUp,
    /// The sign-up is withdrawn.
    Withdraw,
    /// The attendance is verified.
    Verify,
}

/// Whether the caller holds capability `p`.
fn holds(session: &DenimSession, p: Permission) -> (held: bool)
    ensures
        held == session.held().contains(p),
{
    let held = session.can(PermissionsTarget::only(p));
    proof {
        assert(set![p].subset_of(session.held()) <==> session.held().contains(p)) by {
            assert(set![p].contains(p));
        }
    }
    held
}

/// The parts of the page of an event that the caller sees.
pub fn event_sections(session: &DenimSession) -> (sections: EventSections)
    ensures
        sections == (EventSections {
            signed_up_list: session.held().contains(Permission::ViewSensitiveDetails),
            can_verify: session.held().contains(Permission::VerifyAttendance),
            sign_others_up: session.held().contains(Permission::SignOthersUp),
            sign_up_button: session.held().contains(Permission::SignSelfUp),
            photos: session.held().contains(Permission::ViewPhotos),
        }),
{
    EventSections {
        signed_up_list: holds(session, Permission::ViewSensitiveDetails),
        can_verify: holds(session, Permission::VerifyAttendance),
        sign_others_up: holds(session, Permission::SignOthersUp),
        sign_up_button: holds(session, Permission::SignSelfUp),
        photos: holds(session, Permission::ViewPhotos),
    }
}

impl SignUpChange {
    /// What is recorded after this change of someone of whom `before` was
    /// recorded.
    pub open spec fn applied(self, before: EventSignUpState) -> EventSignUpState {
        match self {
            SignUpChange::Keep => before,
            SignUpChange::SignUp => EventSignUpState::SignedUp,
            SignUpChange::Withdraw => EventSignUpState::Nothing,
            SignUpChange::Verify => EventSignUpState::Verified,
        }
    }

    /// The event to publish for this change to the event `event_id`: none
    /// where nothing changes.
    pub fn announcement(self, event_id: u128) -> (event: Option<SseEvent>)
        ensures
            event == (if self == SignUpChange::Keep {
                None
            } else {
                Some(SseEvent::ChangeSignUp { event_id })
            }),
    {
        match self {
            SignUpChange::Keep => None,
            _ => Some(SseEvent::ChangeSignUp { event_id }),
        }
    }
}

/// What changes when someone presses the button that signs oneself up:
/// who has not signed up is signed up, who has signed up withdraws, and a
/// verified attendance stays. `state` is nothing for someone who is no
/// student, of whom nothing changes.
pub fn toggle_self_sign_up(state: Option<EventSignUpState>) -> (change: SignUpChange)
    ensures
        change == spec_toggle(state),
{
    match state {
        Some(EventSignUpState::Nothing) => SignUpChange::SignUp,
        Some(EventSignUpState::SignedUp) => SignUpChange::Withdraw,
        _ => SignUpChange::Keep,
    }
}

/// What changes when the attendance of someone is to be verified: only a
/// student who has signed up is verified.
pub fn verify_attendance(state: Option<EventSignUpState>) -> (change: SignUpChange)
    ensures
        change == spec_verify(state),
{
    match state {
        Some(EventSignUpState::SignedUp) => SignUpChange::Verify,
        _ => SignUpChange::Keep,
    }
}

/// A verified attendance is never undone: neither the button that signs
/// oneself up nor a second verification changes it. And pressing the
/// button twice brings a student who is not verified back to where it was.
pub proof fn verified_attendance_stays(state: EventSignUpState)
    ensures
        state == EventSignUpState::Verified ==> spec_toggle(Some(state)) == SignUpChange::Keep
            && spec_verify(Some(state)) == SignUpChange::Keep,
        state != EventSignUpState::Verified ==> spec_toggle(
            Some(spec_toggle(Some(state)).applied(state)),
        ).applied(spec_toggle(Some(state)).applied(state)) == state,
{
}

/// What the button that signs oneself up changes.
pub open spec fn spec_toggle(state: Option<EventSignUpState>) -> SignUpChange {
    match state {
        Some(EventSignUpState::Nothing) => SignUpChange::SignUp,
        Some(EventSignUpState::SignedUp) => SignUpChange::Withdraw,
        _ => SignUpChange::Keep,
    }
}

/// What a verification changes.
pub open spec fn spec_verify(state: Option<EventSignUpState>) -> SignUpChange {
    match state {
        Some(EventSignUpState::SignedUp) => SignUpChange::Verify,
        _ => SignUpChange::Keep,
    }
}

/// The capability that signing up the student `student` takes: to sign
/// oneself up for the caller's own sign-up, and to sign others up for
/// anyone else's.
pub open spec fn needed_to_sign_up(session: DenimSession, student: u128) -> Permission {
    if session.user matches Some(caller) && caller.id == student {
        Permission::SignSelfUp
    } else {
        Permission::SignOthersUp
    }
}

/// Checks that the caller may sign up the student `student`.
pub fn ensure_can_sign_up(session: &DenimSession, student: u128) -> (checked: DenimResult<()>)
    ensures
        checked is Ok <==> session.held().contains(needed_to_sign_up(*session, student)),
        checked matches Err(e) ==> e matches DenimError::IncorrectPermissions {
            needed,
            found,
        } && needed@ == set![needed_to_sign_up(*session, student)] && found@ == session.held(),
{
    let own = match &session.user {
        Some(caller) => caller.id == student,
        None => false,
    };
    let needed = if own {
        Permission::SignSelfUp
    } else {
        Permission::SignOthersUp
    };
    proof {
        assert(set![needed].subset_of(session.held()) <==> session.held().contains(needed)) by {
            assert(set![needed].contains(needed));
        }
    }
    session.ensure_can(PermissionsTarget::only(needed))
}

/// Whether `id` is among `ids`.
pub open spec fn is_among(ids: Seq<u128>, id: u128) -> bool {
    exists|i: int| 0 <= i < ids.len() && ids[i] == id
}

/// Those of the first `upto` of `students` that are not among `signed_up`,
/// in order.
pub open spec fn left_to_sign_up(students: Seq<u128>, signed_up: Seq<u128>, upto: int) -> Seq<u128>
    decreases upto,
{
    if upto <= 0 {
        Seq::empty()
    } else if is_among(signed_up, students[upto - 1]) {
        left_to_sign_up(students, signed_up, upto - 1)
    } else {
        left_to_sign_up(students, signed_up, upto - 1).push(students[upto - 1])
    }
}

/// The students that can still be signed up to an event: those of
/// `students` that have not signed up yet, in order.
pub fn not_signed_up(students: &Vec<u128>, signed_up: &Vec<u128>) -> (left: Vec<u128>)
    ensures
        left@ == left_to_sign_up(students@, signed_up@, students@.len() as int),
{
    let mut left: Vec<u128> = Vec::new();
    let mut i: usize = 0;
    while i < students.len()
        invariant
            i <= students@.len(),
            left@ == left_to_sign_up(students@, signed_up@, i as int),
        decreases students@.len() - i,
    {
        let student = students[i];
        let mut found = false;
        let mut j: usize = 0;
        while j < signed_up.len() && !found
            invariant
                j <= signed_up@.len(),
                found ==> is_among(signed_up@, student),
                !found ==> forall|k: int| 0 <= k < j ==> signed_up@[k] != student,
            decreases signed_up@.len() - j,
        {
            if signed_up[j] == student {
                found = true;
            }
            j = j + 1;
        }
        if !found {
            left.push(student);
        }
        i = i + 1;
    }
    left
}

} // verus!
