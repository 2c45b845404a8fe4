//! What the client and the backend tell each other over the peer network.

use vstd::prelude::*;
use crate::datatype::package::Package;

verus! {

/// Identifies a package: its name and version.
pub type PackageId = Package;

/// The acknowledgement of a transfer: which chunks of the package have
/// arrived at which device.
#[derive(Clone, Debug, PartialEq, Eq)]
pub struct ChunkReceived {
    pub package: PackageId,
    pub chunks: Vec<u64>,
    pub vin: String,
}

/// The addresses of the backend's services, as the backend made them known
/// when the client registered. An empty address stands for a service that is
/// not known.
#[derive(Clone, Debug, PartialEq, Eq)]
pub struct BackendServices {
    pub start: String,
    pub chunk: String,
    pub finish: String,
    pub report: String,
    pub ack: String,
    pub getpackages: String,
}

impl BackendServices {
    /// No service is known.
    pub fn new() -> (services: BackendServices)
        ensures
            services.start@.len() == 0,
            services.chunk@.len() == 0,
            services.finish@.len() == 0,
            services.report@.len() == 0,
            services.ack@.len() == 0,
            services.getpackages@.len() == 0,
    {
        BackendServices {
            start: String::new(),
            chunk: String::new(),
            finish: String::new(),
            report: String::new(),
            ack: String::new(),
            getpackages: String::new(),
        }
    }
}

} // verus!
