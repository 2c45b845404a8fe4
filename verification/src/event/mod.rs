//! What passes between the two gateways: from the peer network towards the
//! software manager, and back.

use vstd::prelude::*;

pub mod inbound;
pub mod outbound;

verus! {

#[derive(Clone, Debug, PartialEq, Eq)]
pub enum Event {
    Inbound(inbound::InboundEvent),
    OutBound(outbound::OutBoundEvent),
}

impl Event {
    /// The event for the bridge that an event of the client stands for: an
    /// event that concerns the software manager goes inbound, any other is
    /// none of the bridge's business.
    pub fn for_bridge(event: crate::datatype::event::Event) -> (bridged: Option<Event>)
        ensures
            bridged == match event {
                crate::datatype::event::Event::UpdateAvailable(e) => Some(
                    Event::Inbound(inbound::InboundEvent::UpdateAvailable(e)),
                ),
                crate::datatype::event::Event::DownloadComplete(e) => Some(
                    Event::Inbound(inbound::InboundEvent::DownloadComplete(e)),
                ),
                crate::datatype::event::Event::GetInstalledSoftware(e) => Some(
                    Event::Inbound(inbound::InboundEvent::GetInstalledSoftware(e)),
                ),
                _ => None,
            },
    {
        match event {
            crate::datatype::event::Event::UpdateAvailable(e) => Some(
                Event::Inbound(inbound::InboundEvent::UpdateAvailable(e)),
            ),
            crate::datatype::event::Event::DownloadComplete(e) => Some(
                Event::Inbound(inbound::InboundEvent::DownloadComplete(e)),
            ),
            crate::datatype::event::Event::GetInstalledSoftware(e) => Some(
                Event::Inbound(inbound::InboundEvent::GetInstalledSoftware(e)),
            ),
            _ => None,
        }
    }
}

} // verus!
