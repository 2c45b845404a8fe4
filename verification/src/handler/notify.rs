//! Handles the backend's word that updates are pending.

use vstd::prelude::*;
use crate::datatype::event::{Event, EventView};
use crate::datatype::update_request::{duplicate_all, PendingUpdateRequest};
use crate::handler::{HandleMessageParams, HandleResult, Handled};
use crate::message::BackendServices;
use crate::persistence::Transfers;

verus! {

/// The parameters of a "notify" message: the updates that are pending.
#[derive(Clone, Debug, PartialEq, Eq)]
pub struct NotifyParams {
    pub updates: Vec<PendingUpdateRequest>,
}

impl HandleMessageParams for NotifyParams {
    /// The updates are announced as available. No transfer changes.
    fn handle(
        &self,
        services: &BackendServices,
        transfers: &mut Transfers,
        rvi_url: &str,
        vin: &str,
    ) -> (result: HandleResult)
        ensures
            final(transfers)@ == old(transfers)@,
            result matches Ok(handled),
            result->Ok_0.event matches Some(event),
            result->Ok_0.event->0@ == EventView::UpdatesAvailable(self.updates@),
            result->Ok_0.file is None,
            result->Ok_0.ack is None,
    {
        let event = Event::UpdatesAvailable(duplicate_all(&self.updates));
        Ok(Handled { event: Some(event), file: None, ack: None })
    }
}

} // verus!
