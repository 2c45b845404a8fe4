use vstd::prelude::*;

pub use crate::datatype::report::{OperationResult, OperationResults, UpdateReport};

verus! {

pub type UpdateId = String;

/// What the software manager sends towards the peer network.
#[derive(Clone, Debug, PartialEq, Eq)]
pub enum OutBoundEvent {
    InitiateDownload(UpdateId),
    AbortDownload(UpdateId),
    UpdateReport(UpdateReport),
}

} // verus!
