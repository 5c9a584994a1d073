//! Site custom-header validation.
//!
//! A site carries a map of custom request headers that the proxy injects when
//! forwarding. The map is validated here: entry count, header-name grammar
//! (RFC 7230 `token`), proxy-managed names that may not be overridden, value
//! length, and the absence of control characters in values (header and
//! response-splitting prevention).

use vstd::prelude::*;
use vstd::string::*;
use vstd::utf8::encode_utf8;

use crate::error::{details_view, AppError, AppResult, DetailView, FieldError, ValidationDetail};
use crate::json::{
    holds_string_entries, object_members, object_of_strings, string_members, string_members_of,
    strings_map,
};
use crate::string_map::{collect_entries, StringMap};
use crate::models::site::Site;
use crate::pattern::{regex_compiles, regex_is_match, regex_matches};
use crate::text::{ascii_lower, to_ascii_lowercase};

verus! {

/// Maximum number of custom header entries per site.
pub const MAX_HEADERS: usize = 32;

/// Maximum header-name length in bytes.
pub const MAX_HEADER_NAME_LEN: usize = 128;

/// Maximum header-value length in bytes.
pub const MAX_HEADER_VALUE_LEN: usize = 2048;

/// The HTTP token grammar (RFC 7230 `token`) of a header name.
pub const HEADER_NAME_PATTERN: &'static str = "^[!#$%&'*+\\-.^_`|~0-9A-Za-z]+$";

/// The name matches [`HEADER_NAME_PATTERN`], as the `regex` crate decides:
/// the pattern compiles and the compiled expression matches the name.
pub open spec fn matches_header_name_pattern(name: Seq<char>) -> bool {
    regex_compiles(HEADER_NAME_PATTERN@) && regex_matches(HEADER_NAME_PATTERN@, name)
}

/// Proxy-managed routing, framing and connection-control header names, which
/// an admin may not configure (compared case-insensitively).
pub open spec fn is_forbidden_header_name(name: Seq<char>) -> bool {
    let l = ascii_lower(name);
    ||| l == "host"@
    ||| l == "content-length"@
    ||| l == "transfer-encoding"@
    ||| l == "connection"@
    ||| l == "keep-alive"@
    ||| l == "proxy-authenticate"@
    ||| l == "proxy-authorization"@
    ||| l == "te"@
    ||| l == "trailer"@
    ||| l == "upgrade"@
}

/// Every byte is visible ASCII or a space (`0x20..=0x7e`).
pub open spec fn visible_ascii_bytes(bytes: Seq<u8>) -> bool {
    forall|i: int| 0 <= i < bytes.len() ==> 0x20 <= #[trigger] bytes[i] && bytes[i] <= 0x7e
}

/// The `loc` of a per-entry problem: `headers["<name>"]`.
pub open spec fn header_loc(name: Seq<char>) -> Seq<char> {
    "headers[\""@ + name + "\"]"@
}

/// The name fails the token grammar or its length bounds.
pub open spec fn header_name_invalid(name: Seq<char>) -> bool {
    name.len() == 0 || encode_utf8(name).len() > MAX_HEADER_NAME_LEN
        || !matches_header_name_pattern(name)
}

/// The problem reported for one header entry, if any. Checks run in order and
/// the first failing one is reported: name grammar, reserved name, value
/// length, value characters.
pub open spec fn header_problem(name: Seq<char>, value: Seq<char>) -> Option<DetailView> {
    if header_name_invalid(name) {
        Some(
            DetailView {
                loc: header_loc(name),
                msg: "header name must be an HTTP token (1..=128 chars, no spaces or separators)"@,
                rule_id: "header_name_invalid"@,
            },
        )
    } else if is_forbidden_header_name(name) {
        Some(
            DetailView {
                loc: header_loc(name),
                msg: "header name '"@ + name + "' is reserved and cannot be configured"@,
                rule_id: "header_name_forbidden"@,
            },
        )
    } else if encode_utf8(value).len() > MAX_HEADER_VALUE_LEN {
        Some(
            DetailView {
                loc: header_loc(name),
                msg: "header value must be at most 2048 chars"@,
                rule_id: "header_value_too_long"@,
            },
        )
    } else if !visible_ascii_bytes(encode_utf8(value)) {
        Some(
            DetailView {
                loc: header_loc(name),
                msg: "header value must contain only visible ASCII characters and spaces (no control characters)"@,
                rule_id: "header_value_control_char"@,
            },
        )
    } else {
        None
    }
}

/// The entries of a header list, as `(name, value)` strings.
pub open spec fn header_entries(h: Seq<(String, String)>) -> Seq<(Seq<char>, Seq<char>)> {
    h.map_values(|e: (String, String)| (e.0@, e.1@))
}

/// The problems of all entries, in entry order (at most one per entry).
pub open spec fn header_problems(es: Seq<(Seq<char>, Seq<char>)>) -> Seq<DetailView>
    decreases es.len(),
{
    if es.len() == 0 {
        Seq::empty()
    } else {
        let prev = header_problems(es.drop_last());
        match header_problem(es.last().0, es.last().1) {
            Some(d) => prev.push(d),
            None => prev,
        }
    }
}

/// The single problem reported when there are too many entries.
pub open spec fn too_many_headers() -> DetailView {
    DetailView {
        loc: "headers"@,
        msg: "at most 32 custom headers are allowed"@,
        rule_id: "headers_too_many"@,
    }
}

/// The verdict on a header list: too many entries is reported alone;
/// otherwise every entry's problem is reported, and no problem means success.
pub open spec fn headers_verdict(es: Seq<(Seq<char>, Seq<char>)>) -> Option<Seq<DetailView>> {
    if es.len() > MAX_HEADERS {
        Some(seq![too_many_headers()])
    } else if header_problems(es).len() == 0 {
        None
    } else {
        Some(header_problems(es))
    }
}

/// Whether `name` matches [`HEADER_NAME_PATTERN`]; a pattern that does not
/// compile matches nothing.
fn header_name_matches_pattern(name: &str) -> (res: bool)
    ensures
        res == matches_header_name_pattern(name@),
{
    match regex_is_match(HEADER_NAME_PATTERN, name) {
        Some(b) => b,
        None => false,
    }
}

/// Whether `name` is a proxy-managed header name (case-insensitive).
fn is_forbidden_name(name: &str) -> (res: bool)
    ensures
        res == is_forbidden_header_name(name@),
{
    let l = to_ascii_lowercase(name);
    l == "host".to_owned() || l == "content-length".to_owned() || l
        == "transfer-encoding".to_owned() || l == "connection".to_owned() || l
        == "keep-alive".to_owned() || l == "proxy-authenticate".to_owned() || l
        == "proxy-authorization".to_owned() || l == "te".to_owned() || l == "trailer".to_owned()
        || l == "upgrade".to_owned()
}

/// Whether every byte of `value` is visible ASCII or a space.
fn is_visible_ascii(value: &str) -> (res: bool)
    ensures
        res == visible_ascii_bytes(encode_utf8(value@)),
{
    let bytes = value.as_bytes();
    let mut i: usize = 0;
    while i < bytes.len()
        invariant
            bytes@ == encode_utf8(value@),
            0 <= i <= bytes@.len(),
            forall|j: int| 0 <= j < i ==> 0x20 <= #[trigger] bytes@[j] && bytes@[j] <= 0x7e,
        decreases bytes@.len() - i,
    {
        let b = bytes[i];
        if b < 0x20 || b > 0x7e {
            return false;
        }
        i = i + 1;
    }
    true
}

/// Builds `headers["<name>"]`.
fn header_loc_of(name: &str) -> (res: String)
    ensures
        res@ == header_loc(name@),
{
    let mut loc = "headers[\"".to_owned();
    loc.append(name);
    loc.append("\"]");
    loc
}

/// The problem of one header entry, if any.
fn check_header_entry(name: &str, value: &str) -> (res: Option<ValidationDetail>)
    ensures
        match res {
            Some(d) => header_problem(name@, value@) == Some(d@),
            None => header_problem(name@, value@) is None,
        },
{
    let loc = header_loc_of(name);
    if name.is_empty() || name.as_bytes().len() > MAX_HEADER_NAME_LEN || !header_name_matches_pattern(
        name,
    ) {
        return Some(
            ValidationDetail::new(
                loc,
                "header name must be an HTTP token (1..=128 chars, no spaces or separators)".to_owned(),
                "header_name_invalid".to_owned(),
            ),
        );
    }
    if is_forbidden_name(name) {
        let mut msg = "header name '".to_owned();
        msg.append(name);
        msg.append("' is reserved and cannot be configured");
        assert(msg@ =~= "header name '"@ + name@ + "' is reserved and cannot be configured"@);
        return Some(ValidationDetail::new(loc, msg, "header_name_forbidden".to_owned()));
    }
    if value.as_bytes().len() > MAX_HEADER_VALUE_LEN {
        return Some(
            ValidationDetail::new(
                loc,
                "header value must be at most 2048 chars".to_owned(),
                "header_value_too_long".to_owned(),
            ),
        );
    }
    if !is_visible_ascii(value) {
        return Some(
            ValidationDetail::new(
                loc,
                "header value must contain only visible ASCII characters and spaces (no control characters)".to_owned(),
                "header_value_control_char".to_owned(),
            ),
        );
    }
    None
}

/// Validates a site's custom-headers map, visiting its entries in order.
/// Enforces, in order: at most [`MAX_HEADERS`] entries (reported alone,
/// `loc = "headers"`); then per entry a name of 1..=128 bytes matching
/// [`HEADER_NAME_PATTERN`], a name that is not proxy-managed, a value of
/// at most 2048 bytes, and a value of visible ASCII and spaces only. Every
/// failing entry contributes one detail with `loc = headers["<name>"]`.
pub fn validate_headers(map: &StringMap) -> (res: AppResult<()>)
    ensures
        match res {
            Ok(_) => headers_verdict(map@) is None,
            Err(AppError::Validation { details }) => headers_verdict(map@) == Some(
                details_view(details@),
            ),
            Err(_) => false,
        },
{
    let headers = map.entries();
    let ghost es = header_entries(headers@);
    assert(es =~= map@);
    if headers.len() > MAX_HEADERS {
        let mut details: Vec<ValidationDetail> = Vec::new();
        details.push(
            ValidationDetail::new(
                "headers".to_owned(),
                "at most 32 custom headers are allowed".to_owned(),
                "headers_too_many".to_owned(),
            ),
        );
        assert(details_view(details@) =~= seq![too_many_headers()]);
        return Err(AppError::validation(details));
    }
    let mut details: Vec<ValidationDetail> = Vec::new();
    let mut i: usize = 0;
    while i < headers.len()
        invariant
            es == header_entries(headers@),
            0 <= i <= headers@.len(),
            details_view(details@) == header_problems(es.take(i as int)),
        decreases headers@.len() - i,
    {
        let (name, value) = &headers[i];
        let problem = check_header_entry(name.as_str(), value.as_str());
        proof {
            assert(es.take(i + 1).drop_last() =~= es.take(i as int));
            assert(es.take(i + 1).last() == es[i as int]);
        }
        match problem {
            Some(d) => {
                details.push(d);
                proof {
                    assert(details_view(details@) =~= header_problems(es.take(i as int)).push(d@));
                }
            },
            None => {},
        }
        i = i + 1;
    }
    assert(es.take(headers@.len() as int) =~= es);
    if details.len() == 0 {
        Ok(())
    } else {
        Err(AppError::validation(details))
    }
}

/// The protocols a site may use.
pub open spec fn is_protocol(value: Seq<char>) -> bool {
    value == "http"@ || value == "https"@
}

/// Field rule: the protocol must be `http` or `https` (failure code
/// `protocol_invalid`).
pub fn validate_protocol(value: &str) -> (res: Result<(), FieldError>)
    ensures
        match res {
            Ok(_) => is_protocol(value@),
            Err(e) => !is_protocol(value@) && e.code@ == "protocol_invalid"@ && e.message is None,
        },
{
    let v = value.to_owned();
    if v == "http".to_owned() || v == "https".to_owned() {
        Ok(())
    } else {
        Err(FieldError { code: "protocol_invalid".to_owned(), message: None })
    }
}

/// The header entries stored in a site's JSON `headers` object: its
/// string-valued members in the object's order. A value that is not an
/// object, and members that are not strings, contribute nothing.
pub fn headers_from_json(value: &serde_json::Value) -> (res: StringMap)
    ensures
        res@ == collect_entries(string_members(object_members(*value))),
        strings_map(res@) == strings_map(string_members(object_members(*value))),
{
    StringMap::from_entries(string_members_of(value))
}

/// The JSON object persisted for a list of header entries: every member is
/// a string, and a later entry replaces an earlier one with the same name.
pub fn headers_to_json(headers: &StringMap) -> (res: serde_json::Value)
    ensures
        holds_string_entries(object_members(res), headers@),
{
    object_of_strings(headers.entries())
}

/// Request body for `POST /sites`.
#[derive(Debug, Clone)]
pub struct SiteCreate {
    /// Slug primary key (kebab-case, lowercase, 3..=64 chars).
    pub slug: String,
    /// Human-readable name.
    pub name: String,
    /// Source scheme (`http` | `https`).
    pub source_protocol: String,
    /// Source host (1..=255 chars).
    pub source_host: String,
    /// Source port (1..=65535).
    pub source_port: i32,
    /// Destination scheme (`http` | `https`).
    pub dest_protocol: String,
    /// Destination host (1..=255 chars).
    pub dest_host: String,
    /// Destination port (1..=65535).
    pub dest_port: i32,
    /// Custom request headers; absent means none.
    pub headers: Option<StringMap>,
}

/// Request body for `PATCH /sites/{slug}`; every field is optional and the
/// slug is immutable.
#[derive(Debug, Clone, Default)]
pub struct SiteUpdate {
    /// New human-readable name.
    pub name: Option<String>,
    /// New source scheme.
    pub source_protocol: Option<String>,
    /// New source host.
    pub source_host: Option<String>,
    /// New source port.
    pub source_port: Option<i32>,
    /// New destination scheme.
    pub dest_protocol: Option<String>,
    /// New destination host.
    pub dest_host: Option<String>,
    /// New destination port.
    pub dest_port: Option<i32>,
    /// Replacement custom headers; `None` leaves them unchanged.
    pub headers: Option<StringMap>,
}

impl SiteUpdate {
    /// Whether the update carries no fields (a no-op PATCH).
    pub fn is_empty(&self) -> (res: bool)
        ensures
            res == (self.name is None && self.source_protocol is None && self.source_host is None
                && self.source_port is None && self.dest_protocol is None && self.dest_host is None
                && self.dest_port is None && self.headers is None),
    {
        self.name.is_none() && self.source_protocol.is_none() && self.source_host.is_none()
            && self.source_port.is_none() && self.dest_protocol.is_none()
            && self.dest_host.is_none() && self.dest_port.is_none() && self.headers.is_none()
    }
}

/// Response shape for a site.
#[derive(Debug, Clone)]
pub struct SiteRead {
    /// Slug primary key.
    pub slug: String,
    /// Human-readable name.
    pub name: String,
    /// Source scheme.
    pub source_protocol: String,
    /// Source host.
    pub source_host: String,
    /// Source port.
    pub source_port: i32,
    /// Destination scheme.
    pub dest_protocol: String,
    /// Destination host.
    pub dest_host: String,
    /// Destination port.
    pub dest_port: i32,
    /// Custom request headers.
    pub headers: StringMap,
    /// Creation time.
    pub created_at: i64,
    /// Last-update time.
    pub updated_at: i64,
}

impl SiteRead {
    /// Maps a site row to its response shape; the stored headers object is
    /// read through [`headers_from_json`].
    pub fn from(s: Site) -> (res: Self)
        ensures
            res.slug == s.slug,
            res.name == s.name,
            res.source_protocol == s.source_protocol,
            res.source_host == s.source_host,
            res.source_port == s.source_port,
            res.dest_protocol == s.dest_protocol,
            res.dest_host == s.dest_host,
            res.dest_port == s.dest_port,
            res.headers@ == collect_entries(string_members(object_members(s.headers))),
            res.created_at == s.created_at,
            res.updated_at == s.updated_at,
    {
        let headers = headers_from_json(&s.headers);
        SiteRead {
            slug: s.slug,
            name: s.name,
            source_protocol: s.source_protocol,
            source_host: s.source_host,
            source_port: s.source_port,
            dest_protocol: s.dest_protocol,
            dest_host: s.dest_host,
            dest_port: s.dest_port,
            headers,
            created_at: s.created_at,
            updated_at: s.updated_at,
        }
    }
}

/// With no problem reported over a list of entries, no entry has a problem.
proof fn lemma_no_problems(es: Seq<(Seq<char>, Seq<char>)>)
    requires
        header_problems(es).len() == 0,
    ensures
        forall|i: int| 0 <= i < es.len() ==> header_problem(#[trigger] es[i].0, es[i].1) is None,
    decreases es.len(),
{
    if es.len() > 0 {
        let p = es.drop_last();
        lemma_no_problems(p);
        assert forall|i: int| 0 <= i < es.len() implies header_problem(#[trigger] es[i].0, es[i].1)
            is None by {
            if i < es.len() - 1 {
                assert(p[i] == es[i]);
            }
        }
    }
}

/// An accepted header list is safe to forward: at most [`MAX_HEADERS`]
/// entries, each name matching [`HEADER_NAME_PATTERN`] and at most 128 bytes, not a
/// proxy-managed header, and each value at most 2048 bytes of visible ASCII
/// and spaces, hence free of CR, LF and every other control character.
pub proof fn law_accepted_headers_are_safe(es: Seq<(Seq<char>, Seq<char>)>)
    requires
        headers_verdict(es) is None,
    ensures
        es.len() <= MAX_HEADERS,
        forall|i: int|
            0 <= i < es.len() ==> {
                let (name, value) = #[trigger] es[i];
                &&& matches_header_name_pattern(name)
                &&& encode_utf8(name).len() <= MAX_HEADER_NAME_LEN
                &&& !is_forbidden_header_name(name)
                &&& encode_utf8(value).len() <= MAX_HEADER_VALUE_LEN
                &&& visible_ascii_bytes(encode_utf8(value))
                &&& forall|j: int|
                    0 <= j < encode_utf8(value).len() ==> #[trigger] encode_utf8(value)[j] != 13u8
                        && encode_utf8(value)[j] != 10u8
            },
{
    lemma_no_problems(es);
    assert forall|i: int| 0 <= i < es.len() implies {
        let (name, value) = #[trigger] es[i];
        &&& matches_header_name_pattern(name)
        &&& encode_utf8(name).len() <= MAX_HEADER_NAME_LEN
        &&& !is_forbidden_header_name(name)
        &&& encode_utf8(value).len() <= MAX_HEADER_VALUE_LEN
        &&& visible_ascii_bytes(encode_utf8(value))
        &&& forall|j: int|
            0 <= j < encode_utf8(value).len() ==> #[trigger] encode_utf8(value)[j] != 13u8
                && encode_utf8(value)[j] != 10u8
    } by {
        assert(header_problem(es[i].0, es[i].1) is None);
    }
}

/// No accepted header list holds a proxy-managed name: whatever its ASCII
/// letter case, none of `host`, `content-length`, `transfer-encoding`,
/// `connection`, `keep-alive`, `proxy-authenticate`, `proxy-authorization`,
/// `te`, `trailer` or `upgrade` passes, and an entry with such a name is
/// always reported (as a reserved name, or as an invalid one).
pub proof fn law_proxy_managed_names_are_rejected(es: Seq<(Seq<char>, Seq<char>)>)
    ensures
        forall|name: Seq<char>, value: Seq<char>|
            #![trigger header_problem(name, value)]
            {
                let l = ascii_lower(name);
                l == "host"@ || l == "content-length"@ || l == "transfer-encoding"@ || l
                    == "connection"@ || l == "keep-alive"@ || l == "proxy-authenticate"@ || l
                    == "proxy-authorization"@ || l == "te"@ || l == "trailer"@ || l == "upgrade"@
            } ==> header_problem(name, value) is Some && (header_name_invalid(name)
                || header_problem(name, value) == Some(
                (DetailView {
                    loc: "headers[\""@ + name + "\"]"@,
                    msg: "header name '"@ + name + "' is reserved and cannot be configured"@,
                    rule_id: "header_name_forbidden"@,
                }),
            )),
        headers_verdict(es) is None ==> forall|i: int|
            0 <= i < es.len() ==> {
                let l = ascii_lower(#[trigger] es[i].0);
                &&& l != "host"@
                &&& l != "content-length"@
                &&& l != "transfer-encoding"@
                &&& l != "connection"@
                &&& l != "keep-alive"@
                &&& l != "proxy-authenticate"@
                &&& l != "proxy-authorization"@
                &&& l != "te"@
                &&& l != "trailer"@
                &&& l != "upgrade"@
            },
{
    if headers_verdict(es) is None {
        lemma_no_problems(es);
        assert forall|i: int| 0 <= i < es.len() implies {
            let l = ascii_lower(#[trigger] es[i].0);
            &&& l != "host"@
            &&& l != "content-length"@
            &&& l != "transfer-encoding"@
            &&& l != "connection"@
            &&& l != "keep-alive"@
            &&& l != "proxy-authenticate"@
            &&& l != "proxy-authorization"@
            &&& l != "te"@
            &&& l != "trailer"@
            &&& l != "upgrade"@
        } by {
            assert(header_problem(es[i].0, es[i].1) is None);
        }
    }
}

/// When no entry has a problem, none is reported.
proof fn lemma_problems_empty(es: Seq<(Seq<char>, Seq<char>)>)
    requires
        forall|i: int| 0 <= i < es.len() ==> header_problem(#[trigger] es[i].0, es[i].1) is None,
    ensures
        header_problems(es).len() == 0,
    decreases es.len(),
{
    if es.len() > 0 {
        let p = es.drop_last();
        assert forall|i: int| 0 <= i < p.len() implies header_problem(#[trigger] p[i].0, p[i].1)
            is None by {
            assert(p[i] == es[i]);
        }
        lemma_problems_empty(p);
        assert(header_problem(es[es.len() - 1].0, es[es.len() - 1].1) is None);
    }
}

/// Acceptance is decided entry by entry: a header list is accepted exactly
/// when it has at most [`MAX_HEADERS`] entries and no entry has a problem.
/// It therefore does not depend on the order in which the map's entries are
/// visited.
pub proof fn law_acceptance_is_per_entry(es: Seq<(Seq<char>, Seq<char>)>)
    ensures
        (headers_verdict(es) is None) <==> (es.len() <= MAX_HEADERS && forall|i: int|
            0 <= i < es.len() ==> header_problem(#[trigger] es[i].0, es[i].1) is None),
{
    if headers_verdict(es) is None {
        lemma_no_problems(es);
    }
    if es.len() <= MAX_HEADERS && forall|i: int|
        0 <= i < es.len() ==> header_problem(#[trigger] es[i].0, es[i].1) is None {
        lemma_problems_empty(es);
    }
}

} // verus!
