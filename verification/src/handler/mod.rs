//! What follows from a message that arrives from the backend over the peer
//! network. A handler changes the transfer store and says what is to be done
//! outside: an event to raise, a change to a scratch file, an
//! acknowledgement to send.

use vstd::prelude::*;
use crate::datatype::error::Error;
use crate::datatype::event::Event;
use crate::message::{BackendServices, ChunkReceived, PackageId};
use crate::persistence::{scratch_path, ChunkWrite, Transfers};

pub use self::abort::AbortParams;
pub use self::chunk::ChunkParams;
pub use self::finish::FinishParams;
pub use self::notify::NotifyParams;
pub use self::report::ReportParams;
pub use self::service::{service_of, Service};
pub use self::start::StartParams;

pub mod abort;
pub mod chunk;
pub mod finish;
pub mod notify;
pub mod report;
pub mod service;
pub mod start;

verus! {

/// A change to a scratch file.
#[derive(Clone, Debug, PartialEq, Eq)]
pub enum FileEffect {
    /// The file at this path is to be created empty.
    Create(String),
    /// These bytes are to be written to the file at this path.
    Write { path: String, write: ChunkWrite },
    /// The file at this path is to be deleted.
    Delete(String),
}

/// An acknowledgement for the backend: `message` goes to `service`, by way
/// of the peer at `url`.
#[derive(Clone, Debug, PartialEq, Eq)]
pub struct Acknowledgement {
    pub url: String,
    pub service: String,
    pub message: ChunkReceived,
}

/// What a message that was taken has led to.
#[derive(Clone, Debug, PartialEq, Eq)]
pub struct Handled {
    pub event: Option<Event>,
    pub file: Option<FileEffect>,
    pub ack: Option<Acknowledgement>,
}

/// What came of a message: what it has led to, or why it was turned down.
pub type HandleResult = Result<Handled, Error>;

/// The parameters of a message that the client can take.
pub trait HandleMessageParams {
    fn handle(
        &self,
        services: &BackendServices,
        transfers: &mut Transfers,
        rvi_url: &str,
        vin: &str,
    ) -> (result: HandleResult)
        requires
            old(transfers).wf(),
        ensures
            final(transfers).wf(),
            final(transfers).prefix() == old(transfers).prefix(),
    ;
}

/// What is left where the scratch file of a package could not be changed.
#[derive(Clone, Debug, PartialEq, Eq)]
pub struct Failed {
    /// Why the file could not be changed.
    pub error: Error,
    /// The scratch file that is to be deleted, where a transfer was given up.
    pub cleanup: Option<FileEffect>,
}

/// What follows from the outcome of the change that `handled` asked for to
/// the scratch file of `package`. Where the change was made, `handled`
/// stands: its acknowledgement is to be sent and its event raised. Where it
/// failed, the transfer of the package is given up and its scratch file is to
/// be deleted; nothing is acknowledged, and the error comes back.
pub fn written(
    transfers: &mut Transfers,
    package: &PackageId,
    handled: Handled,
    outcome: Result<(), Error>,
) -> (settled: Result<Handled, Failed>)
    requires
        old(transfers).wf(),
    ensures
        final(transfers).wf(),
        final(transfers).prefix() == old(transfers).prefix(),
        match outcome {
            Ok(_) => {
                &&& final(transfers)@ == old(transfers)@
                &&& settled == Ok::<Handled, Failed>(handled)
            },
            Err(error) => {
                &&& final(transfers)@ == old(transfers)@.remove(package.key())
                &&& settled matches Err(failed)
                &&& failed.error == error
                &&& match failed.cleanup {
                    Some(FileEffect::Delete(path)) => {
                        &&& old(transfers)@.dom().contains(package.key())
                        &&& path@ == scratch_path(old(transfers).prefix(), package.label())
                    },
                    Some(_) => false,
                    None => !old(transfers)@.dom().contains(package.key()),
                }
            },
        },
{
    match outcome {
        Ok(_) => Ok(handled),
        Err(error) => {
            let cleanup = match transfers.abort(package) {
                Some(path) => Some(FileEffect::Delete(path)),
                None => None,
            };
            Err(Failed { error, cleanup })
        },
    }
}

} // verus!
