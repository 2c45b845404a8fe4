//! Handles the announcement of a transfer.

use vstd::prelude::*;
use crate::datatype::error::Error;
use crate::handler::chunk::acknowledges;
use crate::handler::{Acknowledgement, FileEffect, HandleMessageParams, HandleResult, Handled};
use crate::message::{BackendServices, ChunkReceived, PackageId};
use crate::persistence::{scratch_path, TransferView, Transfers};

verus! {

/// The parameters of a "start" message: the package that is about to come,
/// in `chunkscount` chunks of `chunk_size` bytes each. The checksum is
/// passed on as it came; nothing here checks it.
#[derive(Clone, Debug, PartialEq, Eq)]
pub struct StartParams {
    pub package: PackageId,
    pub chunkscount: u64,
    pub chunk_size: u64,
    pub checksum: String,
}

impl HandleMessageParams for StartParams {
    /// Begins the transfer of the package, or begins it anew: the scratch
    /// file is to be created empty, and the backend is told that no chunk has
    /// arrived yet. A package too large to be measured is turned down, and so
    /// is one whose scratch file belongs to the transfer of another package.
    fn handle(
        &self,
        services: &BackendServices,
        transfers: &mut Transfers,
        rvi_url: &str,
        vin: &str,
    ) -> (result: HandleResult)
        ensures
            self.chunkscount * self.chunk_size > u64::MAX ==> {
                &&& final(transfers)@ == old(transfers)@
                &&& result matches Err(Error::ParseError(text))
                &&& text@ == "package too large"@
            },
            self.chunkscount * self.chunk_size <= u64::MAX && old(transfers).taken(self.package)
                ==> {
                &&& final(transfers)@ == old(transfers)@
                &&& result matches Err(Error::IoError(file))
                &&& file@ == scratch_path(old(transfers).prefix(), self.package.label())
            },
            self.chunkscount * self.chunk_size <= u64::MAX && !old(transfers).taken(self.package)
                ==> {
                let name = self.package.label();
                &&& final(transfers)@ == old(transfers)@.insert(
                    self.package.key(),
                    TransferView::fresh(
                        name,
                        (self.chunkscount * self.chunk_size) as nat,
                        self.chunk_size as nat,
                    ),
                )
                &&& result matches Ok(handled)
                &&& handled.event is None
                &&& handled.file matches Some(FileEffect::Create(path))
                &&& path@ == scratch_path(old(transfers).prefix(), name)
                &&& acknowledges(
                    handled.ack,
                    rvi_url@,
                    services.ack@,
                    self.package,
                    Seq::empty(),
                    vin@,
                )
            },
    {
        let total_size = match self.chunkscount.checked_mul(self.chunk_size) {
            Some(total_size) => total_size,
            None => {
                return Err(Error::ParseError(String::from_str("package too large")));
            },
        };
        let path = transfers.start(&self.package, total_size, self.chunk_size)?;
        let chunks: Vec<u64> = Vec::new();
        assert(chunks@.map_values(|c: u64| c as nat) =~= Seq::<nat>::empty());
        Ok(
            Handled {
                event: None,
                file: Some(FileEffect::Create(path)),
                ack: Some(
                    Acknowledgement {
                        url: String::from_str(rvi_url),
                        service: services.ack.clone(),
                        message: ChunkReceived {
                            package: self.package.duplicate(),
                            chunks,
                            vin: String::from_str(vin),
                        },
                    },
                ),
            },
        )
    }
}

} // verus!
