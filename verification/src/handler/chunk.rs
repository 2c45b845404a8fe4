//! Handles messages transferring single chunks.

use vstd::prelude::*;
use crate::datatype::error::Error;
use crate::datatype::package::Package;
use crate::handler::{Acknowledgement, FileEffect, HandleMessageParams, HandleResult, Handled};
use crate::message::{BackendServices, ChunkReceived, PackageId};
use crate::persistence::{scratch_path, with_index, Transfers, Verdict};

verus! {

/// Type for messages transferring single chunks.
#[derive(Clone, Debug, PartialEq, Eq)]
pub struct ChunkParams {
    /// The data of the transferred chunk.
    pub bytes: String,
    /// The index of this chunk.
    pub index: u64,
    /// The package transfer this chunk belongs to.
    pub package: PackageId,
}

/// Whether `ack` tells the backend's `service`, by way of the peer at `url`,
/// that just the chunks `chunks` of `package` have arrived at the device `vin`.
pub open spec fn acknowledges(
    ack: Option<Acknowledgement>,
    url: Seq<char>,
    service: Seq<char>,
    package: Package,
    chunks: Seq<nat>,
    vin: Seq<char>,
) -> bool {
    &&& ack matches Some(ack)
    &&& ack.url@ == url
    &&& ack.service@ == service
    &&& ack.message.package == package
    &&& ack.message.chunks@.map_values(|c: u64| c as nat) == chunks
    &&& ack.message.vin@ == vin
}

impl HandleMessageParams for ChunkParams {
    /// Takes the chunk into the transfer of its package. A chunk that is
    /// taken is acknowledged with all the chunks that have arrived, and a new
    /// chunk is to be written to the scratch file. A chunk without a
    /// transfer, beyond the end of its package or of invalid base64 is turned
    /// down; then nothing is acknowledged and nothing written.
    fn handle(
        &self,
        services: &BackendServices,
        transfers: &mut Transfers,
        rvi_url: &str,
        vin: &str,
    ) -> (result: HandleResult)
        ensures
            !old(transfers)@.dom().contains(self.package.key()) ==> {
                &&& final(transfers)@ == old(transfers)@
                &&& result matches Err(Error::UnknownTransfer(name))
                &&& name@ == self.package.label()
            },
            old(transfers)@.dom().contains(self.package.key()) ==> {
                let name = self.package.label();
                let transfer = old(transfers)@[self.package.key()];
                &&& final(transfers)@ == old(transfers)@.insert(
                    self.package.key(),
                    transfer.receive(self.bytes@, self.index as nat),
                )
                &&& match transfer.judge(self.bytes@, self.index as nat) {
                    Verdict::OutOfBounds => result matches Err(Error::ChunkOutOfBounds(named))
                        && named@ == name,
                    Verdict::Undecodable => result matches Err(Error::DecodeError(_)),
                    Verdict::Known => {
                        &&& result matches Ok(handled)
                        &&& handled.event is None
                        &&& handled.file is None
                        &&& acknowledges(
                            handled.ack,
                            rvi_url@,
                            services.ack@,
                            self.package,
                            transfer.chunks,
                            vin@,
                        )
                    },
                    Verdict::Store(bytes) => {
                        &&& result matches Ok(handled)
                        &&& handled.event is None
                        &&& handled.file matches Some(FileEffect::Write { path, write })
                        &&& path@ == scratch_path(old(transfers).prefix(), name)
                        &&& write.offset == self.index * transfer.chunk_size
                        &&& write.bytes@ == bytes
                        &&& acknowledges(
                            handled.ack,
                            rvi_url@,
                            services.ack@,
                            self.package,
                            with_index(transfer.chunks, self.index as nat),
                            vin@,
                        )
                    },
                }
            },
    {
        let ack = transfers.write_chunk(&self.package, self.index, self.bytes.as_str())?;
        let file = match ack.write {
            Some(write) => Some(FileEffect::Write { path: transfers.path_of(&self.package), write }),
            None => None,
        };
        Ok(
            Handled {
                event: None,
                file,
                ack: Some(
                    Acknowledgement {
                        url: String::from_str(rvi_url),
                        service: services.ack.clone(),
                        message: ChunkReceived {
                            package: self.package.duplicate(),
                            chunks: ack.chunks,
                            vin: String::from_str(vin),
                        },
                    },
                ),
            },
        )
    }
}

} // verus!
