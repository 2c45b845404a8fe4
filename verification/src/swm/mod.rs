//! The local gateway: what the client and the software manager of the device
//! tell each other over the bus.

pub use self::swlm::{
    incoming, initiate_download, installed_software, send_download_complete, send_get_installed_software,
    send_update_available, update_report, MessageItem, MethodCall,
};

pub mod swlm;
