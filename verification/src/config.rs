//! Runtime settings and their defaults.

use vstd::prelude::*;

verus! {

/// Strongly-typed runtime settings, populated from the process environment
/// by the application layer.
#[derive(Debug, Clone)]
pub struct Settings {
    /// Postgres connection string.
    pub database_url: String,
    /// Deployment environment label: `dev` | `staging` | `prod`.
    pub app_env: String,
    /// Application version reported by `/health`.
    pub app_version: String,
    /// Git commit reported by `/health`.
    pub git_commit: String,
    /// CORS allow-origin for the admin frontend.
    pub frontend_origin: String,
    /// Bind address of the HTTP server.
    pub bind_addr: String,
    /// Connection pool size.
    pub db_max_connections: u32,
}

/// The environment labels that count as development.
pub open spec fn is_dev_env(env: Seq<char>) -> bool {
    env == "dev"@ || env == "development"@ || env == "local"@
}

impl Settings {
    /// True when running in a development environment (pretty logs).
    pub fn is_dev(&self) -> (res: bool)
        ensures
            res == is_dev_env(self.app_env@),
    {
        self.app_env == "dev".to_owned() || self.app_env == "development".to_owned()
            || self.app_env == "local".to_owned()
    }
}

/// Default deployment environment: `dev`.
pub fn default_app_env() -> (s: String)
    ensures
        s@ == "dev"@,
{
    "dev".to_owned()
}

/// Default git commit label: `unknown`.
pub fn default_git_commit() -> (s: String)
    ensures
        s@ == "unknown"@,
{
    "unknown".to_owned()
}

/// Default admin frontend origin.
pub fn default_frontend_origin() -> (s: String)
    ensures
        s@ == "http://localhost:3000"@,
{
    "http://localhost:3000".to_owned()
}

/// Default bind address.
pub fn default_bind_addr() -> (s: String)
    ensures
        s@ == "0.0.0.0:8000"@,
{
    "0.0.0.0:8000".to_owned()
}

/// Default connection pool size.
pub fn default_db_max_connections() -> (n: u32)
    ensures
        n == 10,
{
    10
}

} // verus!
