//! The CORS allow-origin policy of the admin API.

use vstd::prelude::*;
use vstd::utf8::encode_utf8;

verus! {

/// Which origins the CORS layer allows.
#[derive(Debug, Clone)]
pub enum AllowOrigin {
    /// Exactly the configured frontend origin.
    Exact(String),
    /// Any origin (the fallback when the configured origin is unusable).
    Any,
}

/// A byte that an HTTP header value may carry: visible ASCII, a space, a
/// tab, or any byte of 128 and above (`obs-text`).
pub open spec fn is_header_value_byte(b: u8) -> bool {
    (b >= 32 && b != 127) || b == 9
}

/// Every byte of the UTF-8 encoding of `s` may stand in a header value.
pub open spec fn is_header_value(s: Seq<char>) -> bool {
    forall|i: int| 0 <= i < encode_utf8(s).len() ==> is_header_value_byte(#[trigger] encode_utf8(s)[i])
}

/// `http::HeaderValue::from_str` (reached as `axum::http::HeaderValue`):
/// succeeds exactly when every byte of the string is a valid header-value
/// byte.
#[verifier::external_body]
fn header_value_parses(s: &str) -> (res: bool)
    ensures
        res == is_header_value(s@),
{
    axum::http::HeaderValue::from_str(s).is_ok()
}

/// The allow-origin policy for the configured frontend origin: that origin
/// when it is a valid header value, otherwise the permissive any-origin
/// fallback.
pub fn allow_origin(frontend_origin: &str) -> (res: AllowOrigin)
    ensures
        match res {
            AllowOrigin::Exact(o) => is_header_value(frontend_origin@) && o@ == frontend_origin@,
            AllowOrigin::Any => !is_header_value(frontend_origin@),
        },
{
    if header_value_parses(frontend_origin) {
        AllowOrigin::Exact(frontend_origin.to_owned())
    } else {
        AllowOrigin::Any
    }
}

} // verus!
