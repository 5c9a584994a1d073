//! JSON documents of the `serde_json` crate, carried through the library.
//!
//! A `serde_json::Value` is opaque here: the library stores and forwards such
//! values (component configs, template variables, preset payloads) and learns
//! what it needs of one through the trusted items below, over two names:
//! [`object_members`] (what a JSON object holds) and [`json_text`] (the
//! compact serialization).

use vstd::prelude::*;

verus! {

/// `serde_json::Value`, declared so that it can stand in fields and
/// signatures; nothing of its inside is visible to the verifier.
#[verifier::external_type_specification]
#[verifier::external_body]
pub struct ExJsonValue(serde_json::Value);

/// `serde_json::Error`, the error of serialization.
#[verifier::external_type_specification]
#[verifier::external_body]
pub struct ExJsonError(serde_json::Error);

/// What a JSON value holds as an object: `None` when the value is not an
/// object; otherwise each member's key, with `Some(text)` when the member's
/// value is a JSON string and `None` otherwise, in the object's iteration
/// order.
pub uninterp spec fn object_members(v: serde_json::Value) -> Option<
    Seq<(Seq<char>, Option<Seq<char>>)>,
>;

/// The compact text that `serde_json::to_string` produces for a value.
pub uninterp spec fn json_text(v: serde_json::Value) -> Seq<char>;

/// The map of a list of `(key, text)` entries, later entries replacing
/// earlier ones with the same key.
pub open spec fn strings_map(es: Seq<(Seq<char>, Seq<char>)>) -> Map<Seq<char>, Seq<char>>
    decreases es.len(),
{
    if es.len() == 0 {
        Map::empty()
    } else {
        strings_map(es.drop_last()).insert(es.last().0, es.last().1)
    }
}

/// The string-valued members of an object, in order; empty for a value that
/// is not an object.
pub open spec fn string_members(m: Option<Seq<(Seq<char>, Option<Seq<char>>)>>) -> Seq<
    (Seq<char>, Seq<char>),
> {
    match m {
        Some(ms) => keep_strings(ms),
        None => Seq::empty(),
    }
}

/// The members whose value is a string, as `(key, text)`, in order.
pub open spec fn keep_strings(ms: Seq<(Seq<char>, Option<Seq<char>>)>) -> Seq<
    (Seq<char>, Seq<char>),
>
    decreases ms.len(),
{
    if ms.len() == 0 {
        Seq::empty()
    } else {
        let prev = keep_strings(ms.drop_last());
        match ms.last().1 {
            Some(t) => prev.push((ms.last().0, t)),
            None => prev,
        }
    }
}

/// Every member's value is a string.
pub open spec fn all_strings(ms: Seq<(Seq<char>, Option<Seq<char>>)>) -> bool {
    forall|i: int| 0 <= i < ms.len() ==> (#[trigger] ms[i]).1 is Some
}

/// The members are those of an object whose members are all strings and
/// whose key → text map is that of the entries.
pub open spec fn holds_string_entries(
    m: Option<Seq<(Seq<char>, Option<Seq<char>>)>>,
    entries: Seq<(Seq<char>, Seq<char>)>,
) -> bool {
    match m {
        Some(ms) => all_strings(ms) && strings_map(keep_strings(ms)) == strings_map(entries),
        None => false,
    }
}

/// The view of a list of string pairs.
pub open spec fn pairs_view(es: Seq<(String, String)>) -> Seq<(Seq<char>, Seq<char>)> {
    es.map_values(|e: (String, String)| (e.0@, e.1@))
}

/// The view of converted object members.
pub open spec fn members_view(ms: Seq<(String, Option<String>)>) -> Seq<
    (Seq<char>, Option<Seq<char>>),
> {
    ms.map_values(
        |m: (String, Option<String>)|
            (
                m.0@,
                match m.1 {
                    Some(t) => Some(t@),
                    None => None,
                },
            ),
    )
}

/// `Value::as_object` followed by `Value::as_str` on each member: the members
/// of an object value, each key with its text when the member is a JSON
/// string; `None` for a value that is not an object.
#[verifier::external_body]
fn object_string_members(v: &serde_json::Value) -> (res: Option<Vec<(String, Option<String>)>>)
    ensures
        match res {
            Some(ms) => object_members(*v) == Some(members_view(ms@)),
            None => object_members(*v) is None,
        },
{
    v.as_object().map(
        |m| m.iter().map(|(k, x)| (k.clone(), x.as_str().map(|t| t.to_string()))).collect(),
    )
}

/// `Value::is_object`: whether the value is a JSON object.
#[verifier::external_body]
pub(crate) fn is_json_object(v: &serde_json::Value) -> (res: bool)
    ensures
        res == (object_members(*v) is Some),
{
    v.is_object()
}

/// `serde_json::to_string`: the compact serialization of a value. On a
/// `Value` it succeeds: the value's `Serialize` impl raises no error of its
/// own, every map key is a string, and the only other failures are write
/// errors of the output buffer, a `Vec<u8>`, which never fails to grow.
#[verifier::external_body]
fn to_json_text(v: &serde_json::Value) -> (res: Result<String, serde_json::Error>)
    ensures
        res is Ok,
        res matches Ok(s) ==> s@ == json_text(*v),
{
    serde_json::to_string(v)
}

/// The text of a serialization error (`Display` of `serde_json::Error`).
#[verifier::external_body]
fn json_error_text(e: &serde_json::Error) -> String {
    e.to_string()
}

/// `Value::Object` built by collecting `(key, Value::String(text))` pairs into
/// a `serde_json::Map`: an object whose members are all strings and hold the
/// entries, a later entry replacing an earlier one with the same key.
#[verifier::external_body]
pub(crate) fn object_of_strings(entries: &Vec<(String, String)>) -> (res: serde_json::Value)
    ensures
        holds_string_entries(object_members(res), pairs_view(entries@)),
{
    serde_json::Value::Object(
        entries.iter().map(|(k, t)| (k.clone(), serde_json::Value::String(t.clone()))).collect(),
    )
}

/// The compact serialization of a value, or the text of the serialization
/// error; serializing a JSON value always succeeds.
pub fn serialize(v: &serde_json::Value) -> (res: Result<String, String>)
    ensures
        res is Ok,
        res matches Ok(s) ==> s@ == json_text(*v),
{
    match to_json_text(v) {
        Ok(s) => Ok(s),
        Err(e) => Err(json_error_text(&e)),
    }
}

/// The string-valued members among converted object members, as
/// `(key, text)` pairs in order; members of other types are skipped.
pub fn string_entries(members: &Vec<(String, Option<String>)>) -> (res: Vec<(String, String)>)
    ensures
        pairs_view(res@) == keep_strings(members_view(members@)),
{
    let mut out: Vec<(String, String)> = Vec::new();
    let mut i: usize = 0;
    while i < members.len()
        invariant
            0 <= i <= members@.len(),
            pairs_view(out@) == keep_strings(members_view(members@).take(i as int)),
        decreases members@.len() - i,
    {
        let ghost prev = out@;
        proof {
            assert(members_view(members@).take(i + 1).drop_last() =~= members_view(members@).take(
                i as int,
            ));
        }
        let (k, t) = &members[i];
        match t {
            Some(text) => {
                out.push((k.clone(), text.clone()));
                assert(pairs_view(out@) =~= pairs_view(prev).push((k@, text@)));
            },
            None => {},
        }
        i = i + 1;
    }
    assert(members_view(members@).take(i as int) =~= members_view(members@));
    out
}

/// The string-valued members of an object value, as `(key, text)` pairs in
/// the object's order; empty for a value that is not an object. Members of
/// other types are skipped.
pub fn string_members_of(v: &serde_json::Value) -> (res: Vec<(String, String)>)
    ensures
        pairs_view(res@) == string_members(object_members(*v)),
{
    match object_string_members(v) {
        None => Vec::new(),
        Some(ms) => string_entries(&ms),
    }
}

/// Reading the string members back out of the object that
/// [`object_of_strings`] built from a list of entries gives back the same
/// key → text map.
pub proof fn law_string_object_round_trip(entries: Seq<(Seq<char>, Seq<char>)>, v: serde_json::Value)
    requires
        holds_string_entries(object_members(v), entries),
    ensures
        strings_map(string_members(object_members(v))) == strings_map(entries),
{
}

} // verus!
