//! JSON text, written and read by `serde_json`.
//!
//! A payload is a JSON object with a single member, named after the message
//! variant.  The member holds either a string or an object whose members are
//! all strings.  Nothing in this module is proved: what `serde_json` writes
//! and accepts is not spelled out here, it is only given a name, and every
//! statement below says that a call returns what that name stands for.

use serde_json::Value;
use std::collections::BTreeMap;
use vstd::prelude::*;

verus! {

/// The text that `serde_json::to_vec` writes for an object with the one
/// member `tag`, holding the string `text`; `None` where it reports an error.
pub uninterp spec fn json_text_object(tag: Seq<char>, text: Seq<char>) -> Option<Seq<u8>>;

/// The text that `serde_json::to_vec` writes for an object with the one
/// member `tag`, holding an object with the members `fields`, each a string,
/// in the order given; `None` where it reports an error.
pub uninterp spec fn json_record_object(
    tag: Seq<char>,
    fields: Seq<(Seq<char>, Seq<char>)>,
) -> Option<Seq<u8>>;

/// The members that `serde_json::from_slice` reads from the text of an
/// object whose members are all strings, in ascending order of their names;
/// `None` where it rejects the text.
pub uninterp spec fn json_text_members(text: Seq<u8>) -> Option<Seq<(Seq<char>, Seq<char>)>>;

/// The members that `serde_json::from_slice` reads from the text of an
/// object whose members are all objects of strings, in ascending order of
/// their names; `None` where it rejects the text.
pub uninterp spec fn json_record_members(text: Seq<u8>) -> Option<
    Seq<(Seq<char>, Seq<(Seq<char>, Seq<char>)>)>,
>;

/// `serde_json::to_vec` on a `serde_json::Map` with one member that holds a
/// string.  The result depends on the two strings alone; an error of
/// `serde_json` comes back as `None`.
#[verifier::external_body]
pub(crate) fn write_text_object(tag: &str, text: &str) -> (r: Option<Vec<u8>>)
    ensures
        match r {
            Some(bytes) => json_text_object(tag@, text@) == Some(bytes@),
            None => json_text_object(tag@, text@) is None,
        },
{
    let mut object = serde_json::Map::new();
    object.insert(tag.to_owned(), Value::String(text.to_owned()));
    serde_json::to_vec(&object).ok()
}

/// `serde_json::to_vec` on a `serde_json::Map` with one member that holds a
/// map of strings.  The maps keep the order in which they were filled, so the
/// result depends on the tag and on the list of fields alone; an error of
/// `serde_json` comes back as `None`.
#[verifier::external_body]
pub(crate) fn write_record_object(tag: &str, fields: &Vec<(String, String)>) -> (r: Option<
    Vec<u8>,
>)
    ensures
        match r {
            Some(bytes) => json_record_object(tag@, fields.deep_view()) == Some(bytes@),
            None => json_record_object(tag@, fields.deep_view()) is None,
        },
{
    let inner: serde_json::Map<String, Value> =
        fields.iter().map(|f| (f.0.clone(), Value::String(f.1.clone()))).collect();
    let mut object = serde_json::Map::new();
    object.insert(tag.to_owned(), Value::Object(inner));
    serde_json::to_vec(&object).ok()
}

/// `serde_json::from_slice` into a `BTreeMap` of strings, handed out as the
/// list of its entries; text that `serde_json` rejects comes back as `None`.
#[verifier::external_body]
pub(crate) fn read_text_members(text: &[u8]) -> (r: Option<Vec<(String, String)>>)
    ensures
        r.deep_view() == json_text_members(text@),
{
    let parsed: BTreeMap<String, String> = serde_json::from_slice(text).ok()?;
    Some(parsed.into_iter().collect())
}

/// `serde_json::from_slice` into a `BTreeMap` of `BTreeMap`s of strings,
/// handed out as the list of its entries, each with the list of its own;
/// text that `serde_json` rejects comes back as `None`.
#[verifier::external_body]
pub(crate) fn read_record_members(text: &[u8]) -> (r: Option<
    Vec<(String, Vec<(String, String)>)>,
>)
    ensures
        r.deep_view() == json_record_members(text@),
{
    let parsed: BTreeMap<String, BTreeMap<String, String>> = serde_json::from_slice(text).ok()?;
    Some(parsed.into_iter().map(|m| (m.0, m.1.into_iter().collect())).collect())
}

} // verus!
