//! JSON, held as the compact text that `serde_json` writes of a value.
use serde_json::value::RawValue;
use serde_json::Value;
use std::collections::BTreeMap;
use vstd::prelude::*;

use crate::seqs;
use crate::text;

verus! {

/// The compact text of the JSON value that a text holds; `None` where it holds none, or one that
/// is nested too deep to be read as a whole.
pub uninterp spec fn compact_of(json: Seq<char>) -> Option<Seq<char>>;

/// What the JSON string says that a text holds; `None` where it holds anything else.
pub uninterp spec fn string_in(json: Seq<char>) -> Option<Seq<char>>;

/// A digit of a number to the base sixteen.
pub open spec fn hex_digit(n: int) -> char {
    if n < 10 {
        ('0' as int + n) as char
    } else {
        ('a' as int + n - 10) as char
    }
}

/// A character as it stands in a JSON string.
pub open spec fn escaped(c: char) -> Seq<char> {
    if c == '"' || c == '\\' {
        seq!['\\', c]
    } else if c == '\u{8}' {
        seq!['\\', 'b']
    } else if c == '\u{9}' {
        seq!['\\', 't']
    } else if c == '\u{a}' {
        seq!['\\', 'n']
    } else if c == '\u{c}' {
        seq!['\\', 'f']
    } else if c == '\u{d}' {
        seq!['\\', 'r']
    } else if c as int <= 31 {
        seq!['\\', 'u', '0', '0', hex_digit(c as int / 16), hex_digit(c as int % 16)]
    } else {
        seq![c]
    }
}

/// The characters of a text as they stand in a JSON string.
pub open spec fn all_escaped(text: Seq<char>) -> Seq<char>
    decreases text.len(),
{
    if text.len() == 0 {
        Seq::empty()
    } else {
        all_escaped(text.drop_last()) + escaped(text.last())
    }
}

/// The JSON string that says this.
pub open spec fn quoted_of(text: Seq<char>) -> Seq<char> {
    seq!['"'] + all_escaped(text) + seq!['"']
}

/// The texts of the elements of the JSON array that a text holds; `None` where it holds anything
/// else.
pub uninterp spec fn elements_of(json: Seq<char>) -> Option<Seq<Seq<char>>>;

/// The names and the texts of the values in the JSON object that a text holds; `None` where it
/// holds anything else.
pub uninterp spec fn fields_of(json: Seq<char>) -> Option<Seq<(Seq<char>, Seq<char>)>>;

/// The text of the JSON object that a text holds, with the field `name` put to the JSON value that
/// `value` holds; `None` where there is no such object or no such value.
pub uninterp spec fn with_field_of(json: Seq<char>, name: Seq<char>, value: Seq<char>) -> Option<
    Seq<char>,
>;

/// `serde_json::from_str`, then `serde_json::to_string`, on a value of any kind. Claims that the
/// compact text is a function of the given one. Values that are nested too deep are not read.
#[verifier::external_body]
pub(crate) fn compact(json: &str) -> (res: Option<String>)
    ensures
        res.deep_view() == compact_of(json@),
{
    let value = serde_json::from_str::<Value>(json).ok()?;
    serde_json::to_string(&value).ok()
}

/// `serde_json::from_str`, on a JSON string. Claims that what the string says is a function of the
/// text.
#[verifier::external_body]
pub(crate) fn string(json: &str) -> (res: Option<String>)
    ensures
        res.deep_view() == string_in(json@),
{
    serde_json::from_str::<String>(json).ok()
}

/// `serde_json::Value::to_string`, on a string. Claims that what the string says stands between
/// quotes, with quotes, backslashes and the characters below the blank escaped.
#[verifier::external_body]
pub(crate) fn quoted(text: &str) -> (res: String)
    ensures
        res@ == quoted_of(text@),
{
    Value::String(text.to_owned()).to_string()
}

/// `serde_json::from_str`, on a JSON array, whose elements `serde_json::value::RawValue` keeps as
/// they are written. Claims that their texts are a function of the text. How deep they are nested
/// makes no difference.
#[verifier::external_body]
pub(crate) fn elements(json: &str) -> (res: Option<Vec<String>>)
    ensures
        res.deep_view() == elements_of(json@),
{
    let items = serde_json::from_str::<Vec<Box<RawValue>>>(json).ok()?;
    Some(items.iter().map(|item| item.get().to_owned()).collect())
}

/// `serde_json::from_str`, on a JSON object, whose values `serde_json::value::RawValue` keeps as
/// they are written. Claims that the names and the texts of the values are a function of the text.
/// How deep they are nested makes no difference.
#[verifier::external_body]
pub(crate) fn fields(json: &str) -> (res: Option<Vec<(String, String)>>)
    ensures
        res.deep_view() == fields_of(json@),
{
    let map = serde_json::from_str::<BTreeMap<String, Box<RawValue>>>(json).ok()?;
    Some(map.iter().map(|(name, value)| (name.clone(), value.get().to_owned())).collect())
}

/// `serde_json::to_string`, on the object that `serde_json::from_str` reads, with one more field.
/// Its values `serde_json::value::RawValue` keeps as they are written. Claims that the text of the
/// changed object is a function of the three texts. How deep the values are nested makes no
/// difference.
#[verifier::external_body]
pub(crate) fn with_field(json: &str, name: &str, value: &str) -> (res: Option<String>)
    ensures
        res.deep_view() == with_field_of(json@, name@, value@),
{
    let mut map = serde_json::from_str::<BTreeMap<String, Box<RawValue>>>(json).ok()?;
    map.insert(name.to_owned(), serde_json::from_str::<Box<RawValue>>(value).ok()?);
    serde_json::to_string(&map).ok()
}

/// A JSON value as it is written: compact, or as it stands where it is nested too deep to be read
/// as a whole.
pub open spec fn written_of(json: Seq<char>) -> Seq<char> {
    match compact_of(json) {
        Some(text) => text,
        None => json,
    }
}

/// Computes `written_of`.
pub fn written(json: &str) -> (res: String)
    ensures
        res@ == written_of(json@),
{
    match compact(json) {
        Some(text) => text,
        None => json.to_owned(),
    }
}

/// The test for the field of this name, as a value.
pub open spec fn has_name(name: Seq<char>) -> spec_fn((Seq<char>, Seq<char>)) -> bool {
    |field: (Seq<char>, Seq<char>)| field.0 == name
}

/// The value of the field `name` among these.
pub open spec fn value_among(
    fields: Seq<(Seq<char>, Seq<char>)>,
    name: Seq<char>,
) -> Option<Seq<char>> {
    let i = seqs::first_index(fields, has_name(name));
    if i < fields.len() {
        Some(fields[i].1)
    } else {
        None
    }
}

/// Computes `value_among`.
pub fn find_value(fields: &Vec<(String, String)>, name: &str) -> (res: Option<String>)
    ensures
        res.deep_view() == value_among(fields.deep_view(), name@),
{
    let ghost all = fields.deep_view();
    proof {
        assert(all.len() == fields@.len());
    }
    for i in 0..fields.len()
        invariant
            all == fields.deep_view(),
            all.len() == fields@.len(),
            forall|j: int| 0 <= j < i ==> !has_name(name@)(#[trigger] all[j]),
    {
        let field = &fields[i];
        assert(all[i as int] == (field.0@, field.1@));
        if text::same(field.0.as_str(), name) {
            proof {
                seqs::first_index_is(all, has_name(name@), i as int);
            }
            return Some(field.1.clone());
        }
    }
    proof {
        seqs::first_index_is(all, has_name(name@), all.len() as int);
    }
    None
}

/// The value of the field `name` in the JSON object that a text holds; `None` where it holds no
/// object, or one without such a field.
pub open spec fn member_of(json: Seq<char>, name: Seq<char>) -> Option<Seq<char>> {
    match fields_of(json) {
        Some(fields) => value_among(fields, name),
        None => None,
    }
}

/// Computes `member_of`.
pub fn member(json: &str, name: &str) -> (res: Option<String>)
    ensures
        res.deep_view() == member_of(json@, name@),
{
    match fields(json) {
        Some(fields) => find_value(&fields, name),
        None => None,
    }
}

/// A JSON array of these elements.
pub open spec fn array_of(items: Seq<Seq<char>>) -> Seq<char> {
    "["@ + text::join_of(items, ","@) + "]"@
}

/// A JSON array of these elements.
pub fn array(items: &Vec<String>) -> (res: String)
    ensures
        res@ == array_of(items.deep_view()),
{
    proof {
        assert(text::texts_of(items@) =~= items.deep_view());
    }
    text::concat3("[", text::join(items, ",").as_str(), "]")
}

/// One field of a JSON object.
pub open spec fn field_of(name: Seq<char>, value: Seq<char>) -> Seq<char> {
    quoted_of(name) + ":"@ + value
}

/// One field of a JSON object.
pub fn field(name: &str, value: &str) -> (res: String)
    ensures
        res@ == field_of(name@, value@),
{
    text::concat3(quoted(name).as_str(), ":", value)
}

/// A JSON object of these fields.
pub open spec fn object_of(fields: Seq<Seq<char>>) -> Seq<char> {
    "{"@ + text::join_of(fields, ","@) + "}"@
}

/// A JSON object of these fields.
pub fn object(fields: &Vec<String>) -> (res: String)
    ensures
        res@ == object_of(fields.deep_view()),
{
    proof {
        assert(text::texts_of(fields@) =~= fields.deep_view());
    }
    text::concat3("{", text::join(fields, ",").as_str(), "}")
}

} // verus!
