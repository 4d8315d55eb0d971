//! The deciding half of a typed client for the IBGE endpoints of BrasilAPI: which
//! request a query sends, how the reply becomes a result or an error, and which
//! municipality a name picks out of a list.
//!
//! Sending a request and decoding a body are left to the caller. Everything here is a
//! function of the values that come back from there, with a contract that is proved.

pub mod endpoint;
pub mod error;
pub mod ibge;
pub mod text;
