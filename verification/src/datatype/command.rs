use vstd::prelude::*;
use crate::datatype::client_credentials::ClientCredentials;
use crate::datatype::report::{InstalledSoftware, UpdateReport};
use crate::datatype::update_request::UpdateRequestId;

verus! {

/// What the client can be asked to do.
#[derive(Clone, Debug, PartialEq, Eq)]
pub enum Command {
    /// Obtain a token from the authentication server.
    Authenticate(Option<ClientCredentials>),
    /// Download and install these updates, in this order.
    AcceptUpdates(Vec<UpdateRequestId>),
    /// Ask the backend which updates are pending.
    GetPendingUpdates,
    /// Ask the package manager what is installed.
    ListInstalledPackages,
    /// Tell the backend what is installed.
    UpdateInstalledPackages,
    /// Pass on the report of an installation.
    UpdateReport(UpdateReport),
    /// Pass on what the software manager reports as installed.
    ReportInstalledSoftware(InstalledSoftware),
    /// End the process.
    Shutdown,
}

} // verus!
