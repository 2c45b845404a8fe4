//! The bridge between the two gateways.

pub use self::start::{answered, handle, Forward};

pub mod start;
