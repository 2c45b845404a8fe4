//! What the client asks of the package manager of the device.

use vstd::prelude::*;
use crate::datatype::error::Error;
use crate::datatype::package::Package;
use crate::datatype::report::UpdateResultCode;

verus! {

/// How an installation ended: a result code and what the package manager
/// printed, on success and on failure alike.
pub type InstallOutcome = Result<(UpdateResultCode, String), (UpdateResultCode, String)>;

/// The package manager of the device. Nothing is promised of an
/// implementation: callers deal with every answer.
pub trait PackageManager {
    /// The packages that are installed.
    fn installed_packages(&self) -> Result<Vec<Package>, Error>;

    /// Installs the package file at `path`.
    fn install_package(&self, path: &str) -> InstallOutcome;

    /// The suffix of the files this package manager installs from.
    fn extension(&self) -> String;
}

} // verus!
