//! The start page.

use crate::auth::{AuthUtilities, DenimSession};
use crate::permissions::{Permission, PermissionsTarget};
use vstd::prelude::*;

verus! {

/// What the start page shows, or where it sends the caller instead.
#[derive(Clone, Copy, Debug, PartialEq, Eq, Structural)]
pub enum IndexPage {
    /// The set-up is not finished and the caller is the one to finish it.
    Onboarding,
    /// The page, with or without the link to the people.
    Page { can_view_people: bool },
}

/// Decides what the start page shows. `storage_is_set` says whether the
/// external storage is set up.
pub fn index_page(session: &DenimSession, storage_is_set: bool) -> (page: IndexPage)
    ensures
        page == (if session.held().contains(Permission::RunOnboarding) && !storage_is_set {
            IndexPage::Onboarding
        } else {
            IndexPage::Page {
                can_view_people: session.held().contains(Permission::ViewSensitiveDetails),
            }
        }),
{
    let onboarding = session.can(PermissionsTarget::only(Permission::RunOnboarding));
    let people = session.can(PermissionsTarget::only(Permission::ViewSensitiveDetails));
    proof {
        assert(set![Permission::RunOnboarding].subset_of(session.held()) <==> session.held().contains(
            Permission::RunOnboarding,
        )) by {
            assert(set![Permission::RunOnboarding].contains(Permission::RunOnboarding));
        }
        assert(set![Permission::ViewSensitiveDetails].subset_of(session.held())
            <==> session.held().contains(Permission::ViewSensitiveDetails)) by {
            assert(set![Permission::ViewSensitiveDetails].contains(
                Permission::ViewSensitiveDetails,
            ));
        }
    }
    if onboarding && !storage_is_set {
        IndexPage::Onboarding
    } else {
        IndexPage::Page { can_view_people: people }
    }
}

} // verus!
