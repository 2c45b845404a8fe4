//! Handles the giving up of a transfer.

use vstd::prelude::*;
use crate::datatype::error::Error;
use crate::handler::{FileEffect, HandleMessageParams, HandleResult, Handled};
use crate::message::{BackendServices, PackageId};
use crate::persistence::{scratch_path, Transfers};

verus! {

/// The parameters of an "abort" message.
#[derive(Clone, Debug, PartialEq, Eq)]
pub struct AbortParams {
    pub package: PackageId,
}

impl HandleMessageParams for AbortParams {
    /// Gives the transfer of the package up: it leaves the store, and its
    /// scratch file is to be deleted. A package without a transfer is turned
    /// down.
    fn handle(
        &self,
        services: &BackendServices,
        transfers: &mut Transfers,
        rvi_url: &str,
        vin: &str,
    ) -> (result: HandleResult)
        ensures
            final(transfers)@ == old(transfers)@.remove(self.package.key()),
            !old(transfers)@.dom().contains(self.package.key()) ==> {
                &&& result matches Err(Error::UnknownTransfer(name))
                &&& name@ == self.package.label()
            },
            old(transfers)@.dom().contains(self.package.key()) ==> {
                &&& result matches Ok(handled)
                &&& handled.event is None
                &&& handled.ack is None
                &&& handled.file matches Some(FileEffect::Delete(path))
                &&& path@ == scratch_path(old(transfers).prefix(), self.package.label())
            },
    {
        match transfers.abort(&self.package) {
            Some(path) => Ok(
                Handled { event: None, file: Some(FileEffect::Delete(path)), ack: None },
            ),
            None => Err(Error::UnknownTransfer(self.package.file_name())),
        }
    }
}

} // verus!
