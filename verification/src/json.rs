//! JSON values and what the crate assumes of them.
//!
//! Responses are held as `serde_json::Value`. Verus cannot look inside such a
//! value, so this module names the content of a value, a [`Tree`], and states
//! over it what each of the few `serde_json` calls made here returns. These
//! statements are taken from `serde_json` and are not proved. All other code
//! in the crate reads responses through the functions of this module and is
//! proved against them.

use serde_json::Value;
use vstd::prelude::*;

verus! {

/// `serde_json::Value`, which the verifier takes as an opaque type.
#[verifier::external_type_specification]
#[verifier::external_body]
pub struct ExValue(serde_json::Value);

/// The content of a JSON value.
///
/// A number is represented by its literal; nothing in this crate reads it.
pub enum Tree {
    Null,
    Bool(bool),
    Number(Seq<char>),
    Text(Seq<char>),
    Array(Seq<Tree>),
    Object(Map<Seq<char>, Tree>),
}

impl Tree {
    /// The member stored under `key`; `Null` when `self` is no object or has
    /// no such member.
    pub open spec fn member(self, key: Seq<char>) -> Tree {
        match self {
            Tree::Object(members) => if members.contains_key(key) {
                members[key]
            } else {
                Tree::Null
            },
            _ => Tree::Null,
        }
    }

    /// The element at `position`; `Null` when `self` is no array or is too
    /// short.
    pub open spec fn element(self, position: nat) -> Tree {
        match self {
            Tree::Array(items) => if position < items.len() {
                items[position as int]
            } else {
                Tree::Null
            },
            _ => Tree::Null,
        }
    }

    /// The characters of a string node; `None` for every other node.
    pub open spec fn text(self) -> Option<Seq<char>> {
        match self {
            Tree::Text(chars) => Some(chars),
            _ => None,
        }
    }
}

/// The content of a `serde_json::Value`: whether it is null, a boolean, a
/// number, a string, an array or an object, and the string, the elements in
/// their order or the members by their keys that it holds.
pub uninterp spec fn tree_of(value: Value) -> Tree;

/// The contents of `values`, one by one.
pub open spec fn trees_of(values: Seq<Value>) -> Seq<Tree> {
    values.map_values(|value: Value| tree_of(value))
}

/// The compact JSON text that `serde_json` writes for a value of the given
/// content. The content settles the text: with the default features, which
/// this crate asks for, `serde_json` writes the members of an object sorted
/// by key.
pub uninterp spec fn json_text(tree: Tree) -> Seq<char>;

/// `serde_json`'s `value[key]`, the `Index<&str>` of `Value`: the member of
/// an object under `key`, and a null value when `value` is no object or has
/// no such member.
#[verifier::external_body]
pub(crate) fn member<'a>(value: &'a Value, key: &str) -> (child: &'a Value)
    ensures
        tree_of(*child) == tree_of(*value).member(key@),
{
    &value[key]
}

/// `serde_json`'s `value[position]`, the `Index<usize>` of `Value`: the
/// element of an array at `position`, and a null value when `value` is no
/// array or is too short.
#[verifier::external_body]
pub(crate) fn element<'a>(value: &'a Value, position: usize) -> (child: &'a Value)
    ensures
        tree_of(*child) == tree_of(*value).element(position as nat),
{
    &value[position]
}

/// `Value::is_null`: whether the value is JSON null.
#[verifier::external_body]
pub(crate) fn is_null(value: &Value) -> (null: bool)
    ensures
        null == (tree_of(*value) is Null),
{
    value.is_null()
}

/// `Value::as_str`: the string held by a string value, `None` for any other.
#[verifier::external_body]
pub(crate) fn as_str<'a>(value: &'a Value) -> (text: Option<&'a str>)
    ensures
        match text {
            Some(chars) => tree_of(*value).text() == Some(chars@),
            None => tree_of(*value).text() is None,
        },
{
    value.as_str()
}

/// `Value::as_array`: the elements of an array value in their order, `None`
/// for any other value.
#[verifier::external_body]
pub(crate) fn as_array<'a>(value: &'a Value) -> (items: Option<&'a Vec<Value>>)
    ensures
        match items {
            Some(items) => tree_of(*value) == Tree::Array(trees_of(items@)),
            None => !(tree_of(*value) is Array),
        },
{
    value.as_array()
}

/// `Value::to_string`, which goes through the `Display` of `Value`: the
/// compact JSON text of the value.
#[verifier::external_body]
pub(crate) fn to_text(value: &Value) -> (text: String)
    ensures
        text@ == json_text(tree_of(*value)),
{
    value.to_string()
}

} // verus!
