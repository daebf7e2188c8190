//! JSON error responses for web handlers: an [`Error`] carries an HTTP
//! status code, its reason phrase and optional JSON data, and renders as the
//! body `{"status": code, "reason": reason}` with that data merged in.

pub mod error;
pub mod json;
pub mod status;

pub use error::{Error, Result};
pub use json::Json;
