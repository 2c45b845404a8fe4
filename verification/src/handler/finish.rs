//! Handles the end of a transfer.

use vstd::prelude::*;
use crate::datatype::error::Error;
use crate::datatype::event::Event;
use crate::event::inbound::DownloadComplete;
use crate::handler::{HandleMessageParams, HandleResult, Handled};
use crate::message::{BackendServices, PackageId};
use crate::persistence::{scratch_path, TransferView, Transfers};

verus! {

/// The parameters of a "finish" message. The signature is passed on as it
/// came; nothing here checks it.
#[derive(Clone, Debug, PartialEq, Eq)]
pub struct FinishParams {
    pub package: PackageId,
    pub signature: String,
}

impl HandleMessageParams for FinishParams {
    /// Marks the transfer of the package as finished. Where every chunk has
    /// arrived, the package is announced as ready at its scratch path. A
    /// package without a transfer, or one with chunks missing, is turned down.
    fn handle(
        &self,
        services: &BackendServices,
        transfers: &mut Transfers,
        rvi_url: &str,
        vin: &str,
    ) -> (result: HandleResult)
        ensures
            !old(transfers)@.dom().contains(self.package.key()) ==> {
                &&& final(transfers)@ == old(transfers)@
                &&& result matches Err(Error::UnknownTransfer(named))
                &&& named@ == self.package.label()
            },
            old(transfers)@.dom().contains(self.package.key()) ==> {
                let name = self.package.label();
                let transfer = old(transfers)@[self.package.key()];
                &&& final(transfers)@ == old(transfers)@.insert(
                    self.package.key(),
                    TransferView { finished: true, ..transfer },
                )
                &&& !transfer.complete() ==> (result matches Err(Error::IncompleteTransfer(named))
                    && named@ == name)
                &&& transfer.complete() ==> {
                    &&& result matches Ok(handled)
                    &&& handled.file is None
                    &&& handled.ack is None
                    &&& handled.event matches Some(Event::DownloadComplete(complete))
                    &&& complete.update_image@ == scratch_path(old(transfers).prefix(), name)
                    &&& complete.signature == self.signature
                }
            },
    {
        let update_image = transfers.finish(&self.package)?;
        Ok(
            Handled {
                event: Some(
                    Event::DownloadComplete(
                        DownloadComplete { update_image, signature: self.signature.clone() },
                    ),
                ),
                file: None,
                ack: None,
            },
        )
    }
}

} // verus!
