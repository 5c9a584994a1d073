//! Health-check response.

use vstd::prelude::*;

verus! {

/// Response body for `/health` and `/healthz/db`.
#[derive(Debug)]
pub struct HealthResponse {
    /// Liveness status, e.g. `ok`.
    pub status: String,
    /// Application version.
    pub version: Option<String>,
    /// Git commit.
    pub git_commit: Option<String>,
}

impl HealthResponse {
    /// An `ok` health response carrying version and commit metadata.
    pub fn ok(version: String, git_commit: String) -> (res: Self)
        ensures
            res.status@ == "ok"@,
            res.version == Some(version),
            res.git_commit == Some(git_commit),
    {
        HealthResponse { status: "ok".to_owned(), version: Some(version), git_commit: Some(git_commit) }
    }
}

/// The readiness answer of `/healthz/db` given whether the database answered
/// a ping: `200` with status `ok`, or `503` with status `unavailable`; no
/// version metadata either way.
pub fn healthz_db_response(db_reachable: bool) -> (res: (u16, HealthResponse))
    ensures
        res.0 == (if db_reachable {
            200u16
        } else {
            503u16
        }),
        res.1.status@ == (if db_reachable {
            "ok"@
        } else {
            "unavailable"@
        }),
        res.1.version is None,
        res.1.git_commit is None,
{
    if db_reachable {
        (200, HealthResponse { status: "ok".to_owned(), version: None, git_commit: None })
    } else {
        (503, HealthResponse { status: "unavailable".to_owned(), version: None, git_commit: None })
    }
}

} // verus!
