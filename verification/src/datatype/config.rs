use vstd::prelude::*;
use crate::datatype::url::Url;

verus! {

/// Where and as whom the client authenticates.
#[derive(Clone, Debug, PartialEq, Eq)]
pub struct AuthConfig {
    pub server: Url,
    pub client_id: String,
    pub secret: String,
}

/// Where updates come from and where they are kept on the device.
#[derive(Clone, Debug, PartialEq, Eq)]
pub struct OtaConfig {
    pub server: Url,
    pub packages_dir: String,
    pub package_manager: String,
}

#[derive(Clone, Debug, PartialEq, Eq)]
pub struct DeviceConfig {
    pub uuid: String,
}

/// The names under which the client and the software manager meet on the bus.
#[derive(Clone, Debug, PartialEq, Eq)]
pub struct DBusConfiguration {
    pub name: String,
    pub path: String,
    pub interface: String,
    pub software_manager: String,
    pub software_manager_path: String,
    pub timeout: i32,
}

/// Where the peer network is reached and where the client listens for it.
#[derive(Clone, Debug, PartialEq, Eq)]
pub struct GatewayConfig {
    pub rvi_url: String,
    pub edge_url: String,
}

/// The whole configuration. Without an `auth` section the client does not
/// authenticate.
#[derive(Clone, Debug, PartialEq, Eq)]
pub struct Config {
    pub auth: Option<AuthConfig>,
    pub ota: OtaConfig,
    pub device: DeviceConfig,
    pub dbus: DBusConfiguration,
    pub client: GatewayConfig,
}

impl Default for AuthConfig {
    fn default() -> (config: AuthConfig)
        ensures
            config.server@ == "http://127.0.0.1:9000"@,
            config.client_id@ == "client-id"@,
            config.secret@ == "secret"@,
    {
        AuthConfig {
            server: Url::new("http://127.0.0.1:9000"),
            client_id: String::from_str("client-id"),
            secret: String::from_str("secret"),
        }
    }
}

impl Default for OtaConfig {
    fn default() -> (config: OtaConfig)
        ensures
            config.server@ == "http://127.0.0.1:8080"@,
            config.packages_dir@ == "/tmp"@,
            config.package_manager@ == "dpkg"@,
    {
        OtaConfig {
            server: Url::new("http://127.0.0.1:8080"),
            packages_dir: String::from_str("/tmp"),
            package_manager: String::from_str("dpkg"),
        }
    }
}

impl Default for DeviceConfig {
    fn default() -> (config: DeviceConfig)
        ensures
            config.uuid@ == "123e4567-e89b-12d3-a456-426655440000"@,
    {
        DeviceConfig { uuid: String::from_str("123e4567-e89b-12d3-a456-426655440000") }
    }
}

impl Default for DBusConfiguration {
    fn default() -> (config: DBusConfiguration)
        ensures
            config.name@ == "org.genivi.sota_client"@,
            config.path@ == "/org/genivi/sota_client"@,
            config.interface@ == "org.genivi.sota_client"@,
            config.software_manager@ == "org.genivi.software_loading_manager"@,
            config.software_manager_path@ == "/org/genivi/software_loading_manager"@,
            config.timeout == 20,
    {
        DBusConfiguration {
            name: String::from_str("org.genivi.sota_client"),
            path: String::from_str("/org/genivi/sota_client"),
            interface: String::from_str("org.genivi.sota_client"),
            software_manager: String::from_str("org.genivi.software_loading_manager"),
            software_manager_path: String::from_str("/org/genivi/software_loading_manager"),
            timeout: 20,
        }
    }
}

impl Default for GatewayConfig {
    fn default() -> (config: GatewayConfig)
        ensures
            config.rvi_url@ == "http://127.0.0.1:8901"@,
            config.edge_url@ == "127.0.0.1:9080"@,
    {
        GatewayConfig {
            rvi_url: String::from_str("http://127.0.0.1:8901"),
            edge_url: String::from_str("127.0.0.1:9080"),
        }
    }
}

impl Default for Config {
    /// A configuration for a device on the local machine, with authentication.
    fn default() -> (config: Config)
        ensures
            config.auth is Some,
            config.auth->0.server@ == "http://127.0.0.1:9000"@,
            config.ota.server@ == "http://127.0.0.1:8080"@,
            config.ota.packages_dir@ == "/tmp"@,
            config.device.uuid@ == "123e4567-e89b-12d3-a456-426655440000"@,
    {
        Config {
            auth: Some(AuthConfig::default()),
            ota: OtaConfig::default(),
            device: DeviceConfig::default(),
            dbus: DBusConfiguration::default(),
            client: GatewayConfig::default(),
        }
    }
}

} // verus!
