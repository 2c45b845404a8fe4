//! Handles the backend's question for what is installed.

use vstd::prelude::*;
use crate::datatype::event::Event;
use crate::event::inbound::GetInstalledSoftware;
use crate::handler::{HandleMessageParams, HandleResult, Handled};
use crate::message::BackendServices;
use crate::persistence::Transfers;

verus! {

/// The parameters of a "report" message: it has none.
#[derive(Clone, Copy, Debug, PartialEq, Eq)]
pub struct ReportParams;

impl HandleMessageParams for ReportParams {
    /// The software manager is to be asked for the installed packages, not for
    /// the firmware. No transfer changes.
    fn handle(
        &self,
        services: &BackendServices,
        transfers: &mut Transfers,
        rvi_url: &str,
        vin: &str,
    ) -> (result: HandleResult)
        ensures
            final(transfers)@ == old(transfers)@,
            result matches Ok(handled),
            result->Ok_0.event == Some(
                Event::GetInstalledSoftware(
                    GetInstalledSoftware { include_packages: true, include_module_firmware: false },
                ),
            ),
            result->Ok_0.file is None,
            result->Ok_0.ack is None,
    {
        Ok(
            Handled {
                event: Some(
                    Event::GetInstalledSoftware(
                        GetInstalledSoftware {
                            include_packages: true,
                            include_module_firmware: false,
                        },
                    ),
                ),
                file: None,
                ack: None,
            },
        )
    }
}

} // verus!
