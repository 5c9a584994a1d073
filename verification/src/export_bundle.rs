//! Argument rules of the offline edge-bundle export.

use vstd::prelude::*;
use vstd::string::*;

use crate::schemas::version::PublishEnvironment;
use crate::text::{ascii_lower, to_ascii_lowercase, trim, trimmed};

verus! {

/// The environment named by an `--env` argument, if any: the argument is
/// trimmed and compared case-insensitively (ASCII) with `live` and
/// `staging`.
pub open spec fn env_named(raw: Seq<char>) -> Option<PublishEnvironment> {
    let v = ascii_lower(trimmed(raw));
    if v == "live"@ {
        Some(PublishEnvironment::Live)
    } else if v == "staging"@ {
        Some(PublishEnvironment::Staging)
    } else {
        None
    }
}

/// Parses `--env`. Deliberately strict: an unrecognised value is an error
/// naming the (trimmed, lower-cased) value rather than a fallback to `live`,
/// so a typo cannot vendor the wrong environment's rules.
pub fn parse_env(raw: &str) -> (res: Result<PublishEnvironment, String>)
    ensures
        match res {
            Ok(env) => env_named(raw@) == Some(env),
            Err(msg) => env_named(raw@) is None && msg@ == "--env must be live or staging, got '"@
                + ascii_lower(trimmed(raw@)) + "'"@,
        },
{
    let lowered = to_ascii_lowercase(trim(raw));
    if lowered == "live".to_owned() {
        Ok(PublishEnvironment::Live)
    } else if lowered == "staging".to_owned() {
        Ok(PublishEnvironment::Staging)
    } else {
        let mut msg = "--env must be live or staging, got '".to_owned();
        msg.append(lowered.as_str());
        msg.append("'");
        Err(msg)
    }
}

} // verus!
