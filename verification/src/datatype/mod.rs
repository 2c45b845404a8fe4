//! The values that travel between the parts of the client.

use vstd::prelude::*;

pub use self::access_token::AccessToken;
pub use self::auth::Auth;
pub use self::client_credentials::{ClientCredentials, ClientId, ClientSecret};
pub use self::command::Command;
pub use self::config::{AuthConfig, Config, DBusConfiguration, DeviceConfig, GatewayConfig, OtaConfig};
pub use self::error::Error;
pub use self::event::Event;
pub use self::method::Method;
pub use self::package::Package;
pub use self::report::{
    InstalledFirmware, InstalledFirmwares, InstalledPackage, InstalledPackages, InstalledSoftware,
    OperationResult, OperationResults, UpdateReport, UpdateReportWithDevice, UpdateResultCode,
};
pub use self::update_request::{PendingUpdateRequest, UpdateRequestId, UpdateState};
pub use self::url::Url;

pub mod access_token;
pub mod auth;
pub mod client_credentials;
pub mod command;
pub mod config;
pub mod error;
pub mod event;
pub mod method;
pub mod package;
pub mod report;
pub mod update_request;
pub mod url;

verus! {

/// Identifies one update; opaque to the client.
pub type UpdateId = UpdateRequestId;

} // verus!
