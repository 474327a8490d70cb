//! JSON and TOML documents: what the program reads of them.
use vstd::prelude::*;

verus! {

/// `serde_json::Value`, a parsed JSON value.
#[verifier::external_type_specification]
#[verifier::external_body]
pub struct ExJsonValue(serde_json::Value);

/// `toml::Value`, a parsed TOML value.
#[verifier::external_type_specification]
#[verifier::external_body]
pub struct ExTomlValue(toml::Value);

/// What a value of a document holds, as far as it is read here: a text, members with names, or
/// something else.
pub enum DocView {
    Text(Seq<char>),
    Members(Map<Seq<char>, DocView>),
    Other,
}

/// The member of a value with a given name. Only an object or a table has members.
pub open spec fn member(doc: DocView, name: Seq<char>) -> Option<DocView> {
    match doc {
        DocView::Members(members) => if members.contains_key(name) {
            Some(members[name])
        } else {
            None
        },
        _ => None,
    }
}

/// The text that a value is, if it is one.
pub open spec fn as_text(doc: DocView) -> Option<Seq<char>> {
    match doc {
        DocView::Text(text) => Some(text),
        _ => None,
    }
}

/// The member of a member.
pub open spec fn nested(doc: DocView, outer: Seq<char>, inner: Seq<char>) -> Option<DocView> {
    match member(doc, outer) {
        Some(section) => member(section, inner),
        None => None,
    }
}

/// The value that a text is the JSON form of, if it is well-formed JSON.
pub uninterp spec fn json_text(content: Seq<char>) -> Option<DocView>;

/// What a JSON value holds.
pub uninterp spec fn json_content(value: serde_json::Value) -> DocView;

/// The table that a text is the TOML form of, if it is well-formed TOML.
pub uninterp spec fn toml_text(content: Seq<char>) -> Option<DocView>;

/// What a TOML value holds.
pub uninterp spec fn toml_content(value: toml::Value) -> DocView;

/// `serde_json::from_str` into a `serde_json::Value`. Whether it succeeds, and what the value
/// holds, depends on the text alone.
#[verifier::external_body]
pub(crate) fn parse_json(content: &str) -> (value: Option<serde_json::Value>)
    ensures
        value is Some <==> json_text(content@) is Some,
        value matches Some(v) ==> Some(json_content(v)) == json_text(content@),
{
    serde_json::from_str(content).ok()
}

/// `Value::get` of the crate `serde_json`, with a string: the member of an object with that name;
/// a value that is no object has no members.
#[verifier::external_body]
pub(crate) fn json_member<'a>(value: &'a serde_json::Value, name: &str) -> (found: Option<
    &'a serde_json::Value,
>)
    ensures
        found is Some <==> member(json_content(*value), name@) is Some,
        found matches Some(v) ==> Some(json_content(*v)) == member(json_content(*value), name@),
{
    value.get(name)
}

/// `toml::from_str` into a `toml::Value`. Whether it succeeds, and what the value holds, depends
/// on the text alone.
#[verifier::external_body]
pub(crate) fn parse_toml(content: &str) -> (value: Option<toml::Value>)
    ensures
        value is Some <==> toml_text(content@) is Some,
        value matches Some(v) ==> Some(toml_content(v)) == toml_text(content@),
{
    toml::from_str(content).ok()
}

/// `Value::get` of the crate `toml`, with a string: the entry of a table with that key; a value
/// that is no table has no entries.
#[verifier::external_body]
pub(crate) fn toml_member<'a>(value: &'a toml::Value, name: &str) -> (found: Option<
    &'a toml::Value,
>)
    ensures
        found is Some <==> member(toml_content(*value), name@) is Some,
        found matches Some(v) ==> Some(toml_content(*v)) == member(toml_content(*value), name@),
{
    value.get(name)
}

/// `Value::as_str` of the crate `toml`: the text of a value that is a string.
#[verifier::external_body]
pub(crate) fn toml_str(value: &toml::Value) -> (text: Option<&str>)
    ensures
        text is Some <==> as_text(toml_content(*value)) is Some,
        text matches Some(t) ==> Some(t@) == as_text(toml_content(*value)),
{
    value.as_str()
}

} // verus!
