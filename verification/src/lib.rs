//! Core of a client for the Cryptomus payment gateway.
//!
//! The crate performs no I/O. It turns typed requests into signed HTTP
//! requests and gateway replies into typed results; sending the one and
//! receiving the other is the caller's business.

pub mod client;
pub mod decode;
pub mod error;
pub mod invoice;
pub mod json;
pub mod request;
pub mod response;
pub mod signature;
pub mod status;
pub mod text;
