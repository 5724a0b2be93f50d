//! The YAML value model and the calls into `serde_yaml` that the store relies on.
use vstd::prelude::*;

verus! {

/// A YAML document: `serde_yaml::Value`, whose variants Verus sees.
#[verifier::external_type_specification]
pub struct ExValue(serde_yaml::Value);

/// A YAML number, held opaquely.
#[verifier::external_type_specification]
#[verifier::external_body]
pub struct ExNumber(serde_yaml::Number);

/// A YAML mapping, held opaquely; its entries are `mapping_entries`.
#[verifier::external_type_specification]
#[verifier::external_body]
pub struct ExMapping(serde_yaml::Mapping);

/// A tagged YAML value, held opaquely.
#[verifier::external_type_specification]
#[verifier::external_body]
pub struct ExTaggedValue(serde_yaml::value::TaggedValue);

/// An encoding or decoding error of `serde_yaml`, held opaquely.
#[verifier::external_type_specification]
#[verifier::external_body]
pub struct ExError(serde_yaml::Error);

/// The entries of a mapping, in the order in which they are kept.
pub uninterp spec fn mapping_entries(m: serde_yaml::Mapping) -> Seq<(serde_yaml::Value, serde_yaml::Value)>;

/// The text of `v` where it is a string.
pub open spec fn string_of(v: serde_yaml::Value) -> Option<Seq<char>> {
    match v {
        serde_yaml::Value::String(s) => Some(s@),
        _ => None,
    }
}

/// The mapping of `v` where it is one.
pub open spec fn mapping_of(v: serde_yaml::Value) -> Option<serde_yaml::Mapping> {
    match v {
        serde_yaml::Value::Mapping(m) => Some(m),
        _ => None,
    }
}

/// The items of `v` where it is a sequence.
pub open spec fn sequence_of(v: serde_yaml::Value) -> Option<Seq<serde_yaml::Value>> {
    match v {
        serde_yaml::Value::Sequence(items) => Some(items@),
        _ => None,
    }
}

/// Holds when `k` is a string key and every key of `entries` is a string
/// that differs from it.
pub open spec fn is_fresh_string_key(
    entries: Seq<(serde_yaml::Value, serde_yaml::Value)>,
    k: serde_yaml::Value,
) -> bool {
    &&& string_of(k) is Some
    &&& forall|i: int|
        0 <= i < entries.len() ==> string_of((#[trigger] entries[i]).0) is Some
            && string_of(entries[i].0) != string_of(k)
}

/// Relies on `serde_yaml::Mapping::new`: a mapping with no entries.
#[verifier::external_body]
pub(crate) fn new_mapping() -> (r: serde_yaml::Mapping)
    ensures
        mapping_entries(r) == Seq::<(serde_yaml::Value, serde_yaml::Value)>::empty(),
{
    serde_yaml::Mapping::new()
}

/// Relies on `serde_yaml::Mapping::insert` (an `IndexMap` insert): a key
/// that is not yet present is appended after the existing entries.
#[verifier::external_body]
pub(crate) fn mapping_insert(m: &mut serde_yaml::Mapping, k: serde_yaml::Value, v: serde_yaml::Value) -> (r: Option<serde_yaml::Value>)
    ensures
        is_fresh_string_key(mapping_entries(*old(m)), k) ==> {
            &&& mapping_entries(*final(m)) == mapping_entries(*old(m)).push((k, v))
            &&& r is None
        },
{
    m.insert(k, v)
}

/// The YAML text that `serde_yaml` writes for `v`, or `None` where it
/// cannot encode it.
pub uninterp spec fn yaml_encoding(v: serde_yaml::Value) -> Option<Seq<char>>;

/// The value that `serde_yaml` reads from the text `s`, or `None` where `s`
/// is not a YAML document.
pub uninterp spec fn yaml_decoding(s: Seq<char>) -> Option<serde_yaml::Value>;

/// Relies on `serde_yaml::to_string`: it either fails or gives the YAML
/// text, and which of the two, and the text, depend on the value alone.
#[verifier::external_body]
pub(crate) fn encode_yaml(v: &serde_yaml::Value) -> (r: Result<String, serde_yaml::Error>)
    ensures
        r is Ok <==> yaml_encoding(*v) is Some,
        r is Ok ==> yaml_encoding(*v) == Some(r->Ok_0@),
{
    serde_yaml::to_string(v)
}

/// Relies on `serde_yaml::from_str` at type `Value`: it either fails or
/// gives the value, and which of the two, and the value, depend on the text
/// alone.
#[verifier::external_body]
pub(crate) fn decode_yaml(s: &str) -> (r: Result<serde_yaml::Value, serde_yaml::Error>)
    ensures
        r is Ok <==> yaml_decoding(s@) is Some,
        r is Ok ==> yaml_decoding(s@) == Some(r->Ok_0),
{
    serde_yaml::from_str(s)
}

/// Relies on the `Display` impl of `serde_yaml::Error` for a readable
/// message; nothing is claimed of its text.
#[verifier::external_body]
pub(crate) fn error_text(e: &serde_yaml::Error) -> (r: String) {
    e.to_string()
}

} // verus!
