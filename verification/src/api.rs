//! Query-string shapes of the HTTP API.

pub mod v1;
