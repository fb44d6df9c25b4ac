//! A client library for the public dog image service at `https://dog.ceo/api/`.
//!
//! The library builds each endpoint's address, and turns a response body into
//! the value that the endpoint promises: one image address, a list of them, the
//! sub-breeds of one breed, or the whole breed catalog. The service reports
//! failure inside a JSON envelope `{"status": .., "message": ..}`, so the
//! decision between success and failure is made here from its `status` field.
//! Sending the request is left to the caller.
mod error;
pub mod json;
pub mod decode;
pub mod endpoint;
pub mod laws;

pub use error::DogAPIError;
pub use error::ErrorKind;
pub use json::Json;
pub use decode::read_fixed;
pub use decode::decode_strings;
pub use decode::decode_sub_breeds;
pub use decode::decode_catalog;
