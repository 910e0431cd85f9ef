//! JSON documents as trees of plain values, and the reading of a member of
//! an object.

use crate::text::{chars_of, equal, string_of};
use vstd::prelude::*;

verus! {

/// A JSON value. A number is held as the text that writes it; an object as
/// its members in the order in which the reader of the document gave them.
#[derive(Debug, PartialEq, Eq)]
pub enum Json {
    Null,
    Bool(bool),
    Number(String),
    Text(String),
    Array(Vec<Json>),
    Object(Vec<(String, Json)>),
}

#[verifier::external_type_specification]
#[verifier::external_body]
pub struct ExValue(serde_json::Value);

/// What `serde_json` reads from a text: the value of the document, or the
/// text of the error where the text is no JSON document.
pub uninterp spec fn json_document(text: Seq<char>) -> Result<Json, Seq<char>>;

/// The tree that a value of `serde_json` holds.
pub uninterp spec fn json_tree(value: serde_json::Value) -> Json;

/// The place of the first member named `key` among `fields`, or their number
/// where none has that name.
pub open spec fn member_index(fields: Seq<(String, Json)>, key: Seq<char>) -> nat
    decreases fields.len(),
{
    if fields.len() > 0 && fields.first().0@ != key {
        1 + member_index(fields.drop_first(), key)
    } else {
        0
    }
}

impl Json {
    /// The member named `key`, where the value is an object that has one.
    pub open spec fn member(self, key: Seq<char>) -> Option<Json> {
        match self {
            Json::Object(fields) => if member_index(fields@, key) < fields@.len() {
                Some(fields@[member_index(fields@, key) as int].1)
            } else {
                None
            },
            _ => None,
        }
    }

    /// The member named `key`, where the value is an object that has one.
    pub fn get(&self, key: &str) -> (found: Option<&Json>)
        ensures
            match self.member(key@) {
                Some(value) => found is Some && *found->Some_0 == value,
                None => found is None,
            },
    {
        match self {
            Json::Object(fields) => {
                let mut i: usize = 0;
                assert(fields@.skip(0) =~= fields@);
                while i < fields.len()
                    invariant
                        *self == Json::Object(*fields),
                        i <= fields@.len(),
                        member_index(fields@, key@) == i + member_index(
                            fields@.skip(i as int),
                            key@,
                        ),
                    decreases fields@.len() - i,
                {
                    let ghost rest = fields@.skip(i as int);
                    assert(rest.first() == fields@[i as int]);
                    assert(rest.drop_first() =~= fields@.skip(i + 1));
                    if equal(fields[i].0.as_str(), key) {
                        assert(member_index(rest, key@) == 0);
                        return Some(&fields[i].1);
                    }
                    i += 1;
                }
                assert(fields@.skip(i as int).len() == 0);
                None
            },
            _ => None,
        }
    }
}

/// Copies a value of `serde_json` into a `Json`, node by node.
///
/// Trusted: tells the variants of `serde_json::Value` apart and moves what
/// each holds. A number is written out by `Number::to_string`, and the
/// members of an object come in the order of `serde_json::Map::into_iter`.
#[verifier::external_body]
fn lift(value: serde_json::Value) -> (tree: Json)
    ensures
        tree == json_tree(value),
{
    match value {
        serde_json::Value::Null => Json::Null,
        serde_json::Value::Bool(b) => Json::Bool(b),
        serde_json::Value::Number(n) => Json::Number(n.to_string()),
        serde_json::Value::String(s) => Json::Text(s),
        serde_json::Value::Array(items) => Json::Array(items.into_iter().map(lift).collect()),
        serde_json::Value::Object(fields) => Json::Object(
            fields.into_iter().map(|(k, v)| (k, lift(v))).collect(),
        ),
    }
}

/// Reads a text as a value of `serde_json`.
///
/// Trusted: `serde_json::from_str` for a `serde_json::Value`; where it
/// fails, the text that its error displays.
#[verifier::external_body]
fn read_value(text: &str) -> (r: Result<serde_json::Value, String>)
    ensures
        match r {
            Ok(value) => json_document(text@) == Ok::<Json, Seq<char>>(json_tree(value)),
            Err(why) => json_document(text@) == Err::<Json, Seq<char>>(why@),
        },
{
    match serde_json::from_str::<serde_json::Value>(text) {
        Ok(value) => Ok(value),
        Err(e) => Err(e.to_string()),
    }
}

/// Reads a text as a JSON document: its value, or the text of the error
/// where the text is no JSON document.
pub fn read_document(text: &str) -> (r: Result<Json, String>)
    ensures
        match r {
            Ok(value) => json_document(text@) == Ok::<Json, Seq<char>>(value),
            Err(why) => json_document(text@) == Err::<Json, Seq<char>>(why@),
        },
{
    match read_value(text) {
        Ok(value) => Ok(lift(value)),
        Err(why) => Err(why),
    }
}

/// The character of a hexadecimal digit, in lower case.
pub open spec fn hex_digit(d: nat) -> char
    recommends
        d < 16,
{
    if d == 0 {
        '0'
    } else if d == 1 {
        '1'
    } else if d == 2 {
        '2'
    } else if d == 3 {
        '3'
    } else if d == 4 {
        '4'
    } else if d == 5 {
        '5'
    } else if d == 6 {
        '6'
    } else if d == 7 {
        '7'
    } else if d == 8 {
        '8'
    } else if d == 9 {
        '9'
    } else if d == 10 {
        'a'
    } else if d == 11 {
        'b'
    } else if d == 12 {
        'c'
    } else if d == 13 {
        'd'
    } else if d == 14 {
        'e'
    } else {
        'f'
    }
}

/// How a character stands inside a JSON string: a quote and a backslash
/// behind a backslash, a character below U+0020 as `\u00` and its two
/// hexadecimal digits, and every other character as itself.
pub open spec fn escaped_char(c: char) -> Seq<char> {
    if c == '"' {
        seq!['\\', '"']
    } else if c == '\\' {
        seq!['\\', '\\']
    } else if (c as u32) < 0x20 {
        seq![
            '\\',
            'u',
            '0',
            '0',
            hex_digit((c as u32 / 16) as nat),
            hex_digit((c as u32 % 16) as nat),
        ]
    } else {
        seq![c]
    }
}

/// A text as it stands inside a JSON string, between the two quotes: each of
/// its characters in turn, as `escaped_char` writes it.
pub open spec fn escaped(text: Seq<char>) -> Seq<char>
    decreases text.len(),
{
    if text.len() == 0 {
        Seq::empty()
    } else {
        escaped(text.drop_last()) + escaped_char(text.last())
    }
}

/// The character of a hexadecimal digit, in lower case.
fn hex_char(d: u32) -> (c: char)
    requires
        d < 16,
    ensures
        c == hex_digit(d as nat),
{
    if d == 0 {
        '0'
    } else if d == 1 {
        '1'
    } else if d == 2 {
        '2'
    } else if d == 3 {
        '3'
    } else if d == 4 {
        '4'
    } else if d == 5 {
        '5'
    } else if d == 6 {
        '6'
    } else if d == 7 {
        '7'
    } else if d == 8 {
        '8'
    } else if d == 9 {
        '9'
    } else if d == 10 {
        'a'
    } else if d == 11 {
        'b'
    } else if d == 12 {
        'c'
    } else if d == 13 {
        'd'
    } else if d == 14 {
        'e'
    } else {
        'f'
    }
}

/// Appends a character as it stands inside a JSON string.
fn push_escaped(out: &mut Vec<char>, c: char)
    ensures
        final(out)@ == old(out)@ + escaped_char(c),
{
    let v: u32 = c as u32;
    if c == '"' {
        out.push('\\');
        out.push('"');
    } else if c == '\\' {
        out.push('\\');
        out.push('\\');
    } else if v < 0x20 {
        out.push('\\');
        out.push('u');
        out.push('0');
        out.push('0');
        out.push(hex_char(v / 16));
        out.push(hex_char(v % 16));
    } else {
        out.push(c);
    }
    assert(out@ =~= old(out)@ + escaped_char(c));
}

/// A text as it stands inside a JSON string, between the two quotes.
pub fn escape(text: &str) -> (out: String)
    ensures
        out@ == escaped(text@),
{
    let chars = chars_of(text);
    let mut out: Vec<char> = Vec::new();
    let mut i: usize = 0;
    assert(chars@.take(0) =~= Seq::<char>::empty());
    while i < chars.len()
        invariant
            i <= chars@.len(),
            out@ == escaped(chars@.take(i as int)),
        decreases chars@.len() - i,
    {
        proof {
            let upto = chars@.take(i + 1);
            assert(upto.drop_last() =~= chars@.take(i as int));
            assert(upto.last() == chars@[i as int]);
        }
        push_escaped(&mut out, chars[i]);
        i += 1;
    }
    assert(chars@.take(i as int) =~= chars@);
    string_of(out.as_slice())
}

/// A text as it stands inside a JSON string holds no character below U+0020:
/// each of them was written as an escape.
pub proof fn lemma_escaped_has_no_control_character(text: Seq<char>)
    ensures
        forall|i: int| 0 <= i < escaped(text).len() ==> (#[trigger] escaped(text)[i]) as u32 >= 0x20,
    decreases text.len(),
{
    if text.len() > 0 {
        lemma_escaped_has_no_control_character(text.drop_last());
        let front = escaped(text.drop_last());
        let back = escaped_char(text.last());
        assert forall|j: int| 0 <= j < back.len() implies (#[trigger] back[j]) as u32 >= 0x20 by {}
        assert forall|i: int| 0 <= i < escaped(text).len() implies (#[trigger] escaped(text)[i]) as u32
            >= 0x20 by {
            if i < front.len() {
                assert(escaped(text)[i] == front[i]);
            } else {
                assert(escaped(text)[i] == back[i - front.len()]);
            }
        }
    }
}

} // verus!
