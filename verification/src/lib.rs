//! Core of an over-the-air software update client: the data model, the
//! chunked transfer store, the update lifecycle and the interpreters that
//! turn commands into backend requests and events.
//!
//! Nothing here performs I/O. Where work has to be done outside (an HTTP
//! request, a package installation, a write to the scratch file), a function
//! returns a description of that work and a second function takes its outcome.

pub mod datatype;
pub mod event;
pub mod quote;
pub mod http_client;
pub mod package_manager;
pub mod ota_plus;
pub mod oauth2;
pub mod interpreter;
pub mod persistence;
pub mod handler;
pub mod message;
pub mod genivi;
pub mod remote;
pub mod swm;
