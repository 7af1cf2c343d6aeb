//! The events of the live-update feed and the names they travel under.

use vstd::prelude::*;
use vstd::string::*;

verus! {

/// A signal that something changed. It carries no data beyond the
/// identifier of what changed: whoever receives it fetches the current state
/// again.
#[derive(Clone, Copy, Debug, PartialEq, Eq, Structural)]
pub enum SseEvent {
    /// An event was added, changed or removed.
    CrudEvent,
    /// A person was added, changed or removed.
    CrudPerson,
    /// Someone's sign-up to the event `event_id` changed.
    ChangeSignUp { event_id: u128 },
}

/// The text of the identifier `id` as `uuid` writes it: its 32 hexadecimal
/// digits in lower case, in groups of 8, 4, 4, 4 and 12 with a hyphen between
/// groups.
pub uninterp spec fn uuid_hyphenated(id: u128) -> Seq<char>;

/// `uuid::Uuid::from_u128` followed by the `Display` of `uuid::Uuid`, which
/// writes the hyphenated lower-case form. Trusted: the text is the named
/// function of the identifier.
#[verifier::external_body]
pub(crate) fn uuid_text(id: u128) -> (text: String)
    ensures
        text@ == uuid_hyphenated(id),
{
    uuid::Uuid::from_u128(id).to_string()
}

impl SseEvent {
    /// The name under which this event travels on the feed.
    pub open spec fn spec_event_name(self) -> Seq<char> {
        match self {
            SseEvent::CrudEvent => "crud_event"@,
            SseEvent::CrudPerson => "crud_person"@,
            SseEvent::ChangeSignUp { event_id } => "change_sign_up_"@ + uuid_hyphenated(event_id),
        }
    }

    /// The name under which this event travels on the feed.
    pub fn event_name(self) -> (name: String)
        ensures
            name@ == self.spec_event_name(),
    {
        match self {
            SseEvent::CrudEvent => String::from_str("crud_event"),
            SseEvent::CrudPerson => String::from_str("crud_person"),
            SseEvent::ChangeSignUp { event_id } => {
                let id = uuid_text(event_id);
                String::from_str("change_sign_up_").concat(id.as_str())
            },
        }
    }

    /// The identifier that this event carries, if it carries one.
    pub fn correlation_id(self) -> (id: Option<u128>)
        ensures
            id == match self {
                SseEvent::ChangeSignUp { event_id } => Some(event_id),
                _ => None,
            },
    {
        match self {
            SseEvent::ChangeSignUp { event_id } => Some(event_id),
            _ => None,
        }
    }
}

} // verus!
