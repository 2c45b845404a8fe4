use vstd::prelude::*;
use crate::datatype::report::{InstalledSoftware, UpdateReport};
use crate::datatype::UpdateId;

verus! {

/// Whatever carries the client's word to the backend. Each call is made
/// once; where it fails, the words of the failure come back. Nothing is
/// promised of an implementation: callers deal with every answer.
pub trait Upstream {
    fn send_installed_software(&mut self, m: InstalledSoftware) -> Result<String, String>;

    fn send_start_download(&mut self, id: UpdateId) -> Result<String, String>;

    fn send_update_report(&mut self, m: UpdateReport) -> Result<String, String>;
}

/// One call towards the backend.
#[derive(Clone, Debug, PartialEq, Eq)]
pub enum UpstreamCall {
    /// Tell the backend what is installed.
    InstalledSoftware(InstalledSoftware),
    /// Ask the backend to start the download of an update.
    StartDownload(UpdateId),
    /// Hand in the report of an update.
    UpdateReport(UpdateReport),
}

} // verus!
