//! The remote gateway's way towards the backend.

pub use self::upstream::{Upstream, UpstreamCall};

pub mod upstream;
