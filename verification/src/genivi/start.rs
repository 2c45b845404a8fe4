//! What the bridge does with each event: what comes from the peer network
//! goes to the software manager, what comes from the software manager goes
//! upstream.

use vstd::prelude::*;
use crate::datatype::config::DBusConfiguration;
use crate::datatype::error::Error;
use crate::event::inbound::InboundEvent;
use crate::event::outbound::OutBoundEvent;
use crate::event::Event;
use crate::remote::upstream::UpstreamCall;
use crate::swm::swlm::{
    as_installed_software, installed_software, send_download_complete,
    send_get_installed_software, send_update_available, MessageItem, MethodCall,
};

verus! {

/// Where an event is to go.
#[derive(Debug, PartialEq, Eq)]
pub enum Forward {
    /// This call goes to the software manager; no answer is awaited.
    Tell(MethodCall),
    /// This call goes to the software manager, whose answer is awaited for
    /// at most `timeout`; `answered` says what is to be done with it.
    Ask { call: MethodCall, timeout: i32 },
    /// This call goes upstream.
    Upstream(UpstreamCall),
    /// The event is only taken note of.
    Note,
}

/// Where `event` is to go.
pub fn handle(cfg: &DBusConfiguration, event: Event) -> (forward: Forward)
    ensures
        match event {
            Event::Inbound(InboundEvent::UpdateAvailable(e)) => {
                &&& forward matches Forward::Tell(call)
                &&& call.is_call(
                    *cfg,
                    "updateAvailable"@,
                    seq![
                        MessageItem::Str(e.update_id),
                        MessageItem::Str(e.signature),
                        MessageItem::Str(e.description),
                        MessageItem::Bool(e.request_confirmation),
                    ],
                )
            },
            Event::Inbound(InboundEvent::DownloadComplete(e)) => {
                &&& forward matches Forward::Tell(call)
                &&& call.is_call(
                    *cfg,
                    "downloadComplete"@,
                    seq![MessageItem::Str(e.update_image), MessageItem::Str(e.signature)],
                )
            },
            Event::Inbound(InboundEvent::GetInstalledSoftware(e)) => {
                &&& forward matches Forward::Ask { call, timeout }
                &&& timeout == cfg.timeout
                &&& call.is_call(
                    *cfg,
                    "getInstalledSoftware"@,
                    seq![
                        MessageItem::Bool(e.include_packages),
                        MessageItem::Bool(e.include_module_firmware),
                    ],
                )
            },
            Event::OutBound(OutBoundEvent::InitiateDownload(id)) => forward == Forward::Upstream(
                UpstreamCall::StartDownload(id),
            ),
            Event::OutBound(OutBoundEvent::AbortDownload(_)) => forward == Forward::Note,
            Event::OutBound(OutBoundEvent::UpdateReport(report)) => forward == Forward::Upstream(
                UpstreamCall::UpdateReport(report),
            ),
        },
{
    match event {
        Event::Inbound(i) => match i {
            InboundEvent::UpdateAvailable(e) => Forward::Tell(send_update_available(cfg, e)),
            InboundEvent::DownloadComplete(e) => Forward::Tell(send_download_complete(cfg, e)),
            InboundEvent::GetInstalledSoftware(e) => Forward::Ask {
                call: send_get_installed_software(cfg, e),
                timeout: cfg.timeout,
            },
        },
        Event::OutBound(o) => match o {
            OutBoundEvent::InitiateDownload(e) => Forward::Upstream(UpstreamCall::StartDownload(e)),
            OutBoundEvent::AbortDownload(_) => Forward::Note,
            OutBoundEvent::UpdateReport(e) => Forward::Upstream(UpstreamCall::UpdateReport(e)),
        },
    }
}

/// What is to be done with the software manager's answer to the question
/// for what is installed. An answer that reads well goes upstream. Where no
/// answer came in time, or the bus failed, the error comes back as it is;
/// where the answer does not read, that is the error. Nothing is kept of a
/// question that failed.
pub fn answered(reply: Result<Vec<MessageItem>, Error>) -> (forward: Result<UpstreamCall, Error>)
    ensures
        match reply {
            Err(error) => forward == Err::<UpstreamCall, Error>(error),
            Ok(items) => match as_installed_software(items@) {
                Some((packages, firmware)) => {
                    &&& forward matches Ok(UpstreamCall::InstalledSoftware(software))
                    &&& software.packages@ == packages
                    &&& software.firmware@ == firmware
                },
                None => {
                    &&& forward matches Err(Error::ParseError(text))
                    &&& text@ == if items@.len() < 2 {
                        "missing argument"@
                    } else {
                        "malformed argument"@
                    }
                },
            },
        },
{
    match reply {
        Err(error) => Err(error),
        Ok(items) => match installed_software(&items) {
            Ok(software) => Ok(UpstreamCall::InstalledSoftware(software)),
            Err(error) => Err(error),
        },
    }
}

} // verus!
