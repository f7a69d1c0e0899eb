//! JSON documents, built and written by `serde_json`.

use near_sdk::serde_json::Value;
use vstd::prelude::*;
use vstd::utf8::encode_utf8;

use crate::text::decimal;

verus! {

/// A JSON value of `serde_json`. What it holds is known through [`json_text`] alone.
#[verifier::external_type_specification]
#[verifier::external_body]
pub struct ExValue(Value);

/// What a value holds, as the characters of its compact JSON text.
pub uninterp spec fn json_text(value: Value) -> Seq<char>;

/// The lower-case hexadecimal digit for a number below sixteen.
pub open spec fn hex_digit(n: int) -> char {
    if n < 10 {
        (48 + n) as char
    } else {
        (87 + n) as char
    }
}

/// What stands for one character inside a JSON string.
pub open spec fn escaped(c: char) -> Seq<char> {
    let code = c as int;
    if c == '"' || c == '\\' {
        seq!['\\', c]
    } else if code == 8 {
        seq!['\\', 'b']
    } else if code == 9 {
        seq!['\\', 't']
    } else if code == 10 {
        seq!['\\', 'n']
    } else if code == 12 {
        seq!['\\', 'f']
    } else if code == 13 {
        seq!['\\', 'r']
    } else if code < 32 {
        seq!['\\', 'u', '0', '0', hex_digit(code / 16), hex_digit(code % 16)]
    } else {
        seq![c]
    }
}

/// The characters of a text, each escaped.
pub open spec fn escaped_text(text: Seq<char>) -> Seq<char>
    decreases text.len(),
{
    if text.len() == 0 {
        seq![]
    } else {
        escaped_text(text.drop_last()) + escaped(text.last())
    }
}

/// A JSON string.
pub open spec fn quoted(text: Seq<char>) -> Seq<char> {
    seq!['"'] + escaped_text(text) + seq!['"']
}

/// The parts one after the other, with a separator between them.
pub open spec fn joined(parts: Seq<Seq<char>>, separator: Seq<char>) -> Seq<char>
    decreases parts.len(),
{
    if parts.len() == 0 {
        seq![]
    } else if parts.len() == 1 {
        parts[0]
    } else {
        joined(parts.drop_last(), separator) + separator + parts.last()
    }
}

/// A JSON array, from the texts of its items.
pub open spec fn array_text(items: Seq<Seq<char>>) -> Seq<char> {
    seq!['['] + joined(items, seq![',']) + seq![']']
}

/// One member of a JSON object, from its key and the text of its value.
pub open spec fn member_text(member: (Seq<char>, Seq<char>)) -> Seq<char> {
    quoted(member.0) + seq![':'] + member.1
}

/// A JSON object, from its keys and the texts of their values, in this order.
pub open spec fn object_text(members: Seq<(Seq<char>, Seq<char>)>) -> Seq<char> {
    seq!['{'] + joined(
        members.map_values(|member: (Seq<char>, Seq<char>)| member_text(member)),
        seq![','],
    ) + seq!['}']
}

/// What a JSON truth value is written as.
pub open spec fn bool_text(flag: bool) -> Seq<char> {
    if flag {
        "true"@
    } else {
        "false"@
    }
}

/// Keys and the texts of the values beside them.
pub open spec fn members_of(fields: Seq<(String, Value)>) -> Seq<(Seq<char>, Seq<char>)> {
    fields.map_values(|field: (String, Value)| (field.0@, json_text(field.1)))
}

/// No key stands in the list twice.
pub open spec fn distinct_keys(members: Seq<(Seq<char>, Seq<char>)>) -> bool {
    forall|i: int, j: int|
        0 <= i < j < members.len() ==> (#[trigger] members[i]).0 != (#[trigger] members[j]).0
}

/// Calls `serde_json::Value::from(String)`. Claimed: the value is written as the text between
/// quotation marks, where a quotation mark, a backslash and the control characters below
/// U+0020 are escaped, the latter by their short form where JSON has one and as `\u00xx` in
/// lower case otherwise, and every other character stands for itself.
#[verifier::external_body]
pub(crate) fn json_string(text: &str) -> (value: Value)
    ensures
        json_text(value) == quoted(text@),
{
    Value::from(text.to_string())
}

/// Calls `serde_json::Value::from(u64)`. Claimed: the value is written in decimal.
#[verifier::external_body]
pub(crate) fn json_number(number: u64) -> (value: Value)
    ensures
        json_text(value) == decimal(number as nat),
{
    Value::from(number)
}

/// Calls `serde_json::Value::from(bool)`. Claimed: the value is written as `true` or `false`.
#[verifier::external_body]
pub(crate) fn json_bool(flag: bool) -> (value: Value)
    ensures
        json_text(value) == bool_text(flag),
{
    Value::from(flag)
}

/// Calls `serde_json::Value::from(Vec<Value>)`. Claimed: the value is written as the texts of
/// the items, in their order, between square brackets and with a comma between two of them.
#[verifier::external_body]
pub(crate) fn json_array(items: Vec<Value>) -> (value: Value)
    ensures
        json_text(value) == array_text(items@.map_values(|item: Value| json_text(item))),
{
    Value::from(items)
}

/// Calls `serde_json::Value::from_iter` on key-value pairs, which makes an object. `near-sdk`
/// builds `serde_json` with `preserve_order`, so the object keeps the order in which its keys
/// came. Claimed, where no key comes twice: the value is written as the members in their order,
/// between braces and with a comma between two of them, each as its key as a JSON string, a
/// colon and the text of its value.
#[verifier::external_body]
pub(crate) fn json_object(fields: Vec<(String, Value)>) -> (value: Value)
    requires
        distinct_keys(members_of(fields@)),
    ensures
        json_text(value) == object_text(members_of(fields@)),
{
    Value::from_iter(fields)
}

/// Calls `to_string` on a `serde_json::Value`. Claimed: this gives the compact JSON text.
#[verifier::external_body]
pub(crate) fn json_to_string(value: &Value) -> (text: String)
    ensures
        text@ == json_text(*value),
{
    value.to_string()
}

/// Calls `serde_json::to_vec` on a `serde_json::Value`, which has string keys alone and so
/// does not fail. Claimed: this gives the compact JSON text in UTF-8.
#[verifier::external_body]
pub(crate) fn json_to_vec(value: &Value) -> (bytes: Vec<u8>)
    ensures
        bytes@ == encode_utf8(json_text(*value)),
{
    near_sdk::serde_json::to_vec(value).unwrap()
}

/// Pairs a key with its value.
pub(crate) fn member(key: &str, value: Value) -> (field: (String, Value))
    ensures
        field.0@ == key@,
        field.1 == value,
{
    (key.to_owned(), value)
}

} // verus!
