use vstd::prelude::*;
use crate::datatype::package::Package;
use crate::datatype::update_request::{PendingUpdateRequest, UpdateRequestId, UpdateState};
use crate::event::inbound::{DownloadComplete, GetInstalledSoftware, UpdateAvailable};

verus! {

/// What the client lets its observers know.
#[derive(Clone, Debug, PartialEq, Eq)]
pub enum Event {
    /// A token was obtained.
    Authenticated,
    /// The command needs a token that the client does not have, or the
    /// backend refused the one it has.
    NotAuthenticated,
    /// The command was carried out.
    OK,
    /// The command failed, with the message of the error.
    Error(String),
    /// What the package manager holds as installed.
    FoundInstalledPackages(Vec<Package>),
    /// The backend holds updates for this device.
    UpdatesAvailable(Vec<PendingUpdateRequest>),
    /// An update entered a phase of its lifecycle.
    UpdateStateChanged(UpdateRequestId, UpdateState),
    /// An update failed, with a description of what went wrong.
    UpdateErrored(UpdateRequestId, String),
    /// An update is offered to the software manager.
    UpdateAvailable(UpdateAvailable),
    /// A package lies ready on the device.
    DownloadComplete(DownloadComplete),
    /// The backend asks what is installed.
    GetInstalledSoftware(GetInstalledSoftware),
}

/// What an `Event` holds, as plain values.
pub enum EventView {
    Authenticated,
    NotAuthenticated,
    /// The command was carried out.
    OK,
    Error(Seq<char>),
    FoundInstalledPackages(Seq<Package>),
    UpdatesAvailable(Seq<PendingUpdateRequest>),
    UpdateStateChanged(Seq<char>, UpdateState),
    UpdateErrored(Seq<char>, Seq<char>),
    UpdateAvailable(UpdateAvailable),
    DownloadComplete(DownloadComplete),
    GetInstalledSoftware(GetInstalledSoftware),
}

impl View for Event {
    type V = EventView;

    open spec fn view(&self) -> EventView {
        match self {
            Event::Authenticated => EventView::Authenticated,
            Event::NotAuthenticated => EventView::NotAuthenticated,
            Event::OK => EventView::OK,
            Event::Error(text) => EventView::Error(text@),
            Event::FoundInstalledPackages(packages) => EventView::FoundInstalledPackages(packages@),
            Event::UpdatesAvailable(updates) => EventView::UpdatesAvailable(updates@),
            Event::UpdateStateChanged(id, state) => EventView::UpdateStateChanged(id@, *state),
            Event::UpdateErrored(id, text) => EventView::UpdateErrored(id@, text@),
            Event::UpdateAvailable(e) => EventView::UpdateAvailable(*e),
            Event::DownloadComplete(e) => EventView::DownloadComplete(*e),
            Event::GetInstalledSoftware(e) => EventView::GetInstalledSoftware(*e),
        }
    }
}

impl Event {
    /// A copy that holds the same values.
    pub fn duplicate(&self) -> (copy: Event)
        ensures
            copy@ == self@,
    {
        match self {
            Event::Authenticated => Event::Authenticated,
            Event::NotAuthenticated => Event::NotAuthenticated,
            Event::OK => Event::OK,
            Event::Error(text) => Event::Error(text.clone()),
            Event::FoundInstalledPackages(packages) => {
                let mut copies: Vec<Package> = Vec::new();
                let mut i: usize = 0;
                while i < packages.len()
                    invariant
                        i <= packages.len(),
                        copies@ == packages@.subrange(0, i as int),
                    decreases packages.len() - i,
                {
                    copies.push(packages[i].duplicate());
                    assert(copies@ =~= packages@.subrange(0, i + 1));
                    i = i + 1;
                }
                assert(copies@ =~= packages@);
                Event::FoundInstalledPackages(copies)
            },
            Event::UpdatesAvailable(updates) => {
                let mut copies: Vec<PendingUpdateRequest> = Vec::new();
                let mut i: usize = 0;
                while i < updates.len()
                    invariant
                        i <= updates.len(),
                        copies@ == updates@.subrange(0, i as int),
                    decreases updates.len() - i,
                {
                    copies.push(updates[i].duplicate());
                    assert(copies@ =~= updates@.subrange(0, i + 1));
                    i = i + 1;
                }
                assert(copies@ =~= updates@);
                Event::UpdatesAvailable(copies)
            },
            Event::UpdateStateChanged(id, state) => Event::UpdateStateChanged(id.clone(), *state),
            Event::UpdateErrored(id, text) => Event::UpdateErrored(id.clone(), text.clone()),
            Event::UpdateAvailable(e) => Event::UpdateAvailable(e.duplicate()),
            Event::DownloadComplete(e) => Event::DownloadComplete(e.duplicate()),
            Event::GetInstalledSoftware(e) => Event::GetInstalledSoftware(*e),
        }
    }
}

/// The views of a run of events, in order.
pub open spec fn views(events: Seq<Event>) -> Seq<EventView> {
    events.map_values(|e: Event| e@)
}

} // verus!
