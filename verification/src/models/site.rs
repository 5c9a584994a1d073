//! Site rows: `source → destination` routing entries of the proxy.

use vstd::prelude::*;

verus! {

/// A site. The proxy matches an incoming `Host` against
/// `(source_host, source_port)` and forwards to
/// `dest_protocol://dest_host:dest_port`.
#[derive(Debug)]
pub struct Site {
    /// Slug primary key.
    pub slug: String,
    /// Human-readable name.
    pub name: String,
    /// Source scheme (`http` | `https`).
    pub source_protocol: String,
    /// Source host.
    pub source_host: String,
    /// Source port.
    pub source_port: i32,
    /// Destination scheme (`http` | `https`).
    pub dest_protocol: String,
    /// Destination host.
    pub dest_host: String,
    /// Destination port.
    pub dest_port: i32,
    /// Custom request headers, stored as a JSON object of strings.
    pub headers: serde_json::Value,
    /// Creation time.
    pub created_at: i64,
    /// Last-update time.
    pub updated_at: i64,
}

} // verus!
