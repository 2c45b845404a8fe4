use vstd::prelude::*;

verus! {

/// An update is offered to the software manager.
#[derive(Clone, Debug, PartialEq, Eq)]
pub struct UpdateAvailable {
    pub update_id: String,
    pub signature: String,
    pub name: String,
    pub description: String,
    pub request_confirmation: bool,
    pub size: u64,
}

impl UpdateAvailable {
    /// A copy that holds the same values.
    pub fn duplicate(&self) -> (copy: UpdateAvailable)
        ensures
            copy == *self,
    {
        UpdateAvailable {
            update_id: self.update_id.clone(),
            signature: self.signature.clone(),
            name: self.name.clone(),
            description: self.description.clone(),
            request_confirmation: self.request_confirmation,
            size: self.size,
        }
    }
}

/// A package lies ready on the device. The signature is passed on as it
/// came; nothing here checks it.
#[derive(Clone, Debug, PartialEq, Eq)]
pub struct DownloadComplete {
    pub update_image: String,
    pub signature: String,
}

impl DownloadComplete {
    /// A copy that holds the same values.
    pub fn duplicate(&self) -> (copy: DownloadComplete)
        ensures
            copy == *self,
    {
        DownloadComplete {
            update_image: self.update_image.clone(),
            signature: self.signature.clone(),
        }
    }
}

/// The backend asks what is installed.
#[derive(Clone, Copy, Debug, PartialEq, Eq, Structural)]
pub struct GetInstalledSoftware {
    pub include_packages: bool,
    pub include_module_firmware: bool,
}

/// What arrives from the peer network for the software manager.
#[derive(Clone, Debug, PartialEq, Eq)]
pub enum InboundEvent {
    UpdateAvailable(UpdateAvailable),
    DownloadComplete(DownloadComplete),
    GetInstalledSoftware(GetInstalledSoftware),
}

} // verus!
