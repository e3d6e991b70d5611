//! JSON documents as the plugin host sees them.
//!
//! [`Json`] is the executable document, [`JsonValue`] its mathematical value.
//! Reading and printing JSON text is left to `serde_json`; everything that
//! inspects or builds a document is verified here.

use crate::text::{decimal, str_equal, texts};
use serde_json::Value;
use vstd::prelude::*;

verus! {

/// `serde_json::Number`, a JSON number. A document carries it as it is;
/// nothing here looks inside.
#[verifier::external_type_specification]
#[verifier::external_body]
pub struct ExNumber(serde_json::Number);

/// `serde_json::Value`, the form in which `serde_json` reads and prints a
/// document.
#[verifier::external_type_specification]
#[verifier::external_body]
pub struct ExValue(serde_json::Value);

/// `serde_json::Error`, what the reader of `serde_json` found wrong.
#[verifier::external_type_specification]
#[verifier::external_body]
pub struct ExParseError(serde_json::Error);

/// What a `serde_json::Number` holds: the text that its `Display` prints, in
/// which it also stands in printed JSON.
pub uninterp spec fn number_text(n: serde_json::Number) -> Seq<char>;

/// The document that `serde_json::from_str` reads from `text`, or `None`
/// where it rejects the text.
pub uninterp spec fn json_parse(text: Seq<char>) -> Option<JsonValue>;

/// The compact text that `serde_json` prints for a document.
pub uninterp spec fn json_text(value: JsonValue) -> Seq<char>;

/// `Clone::clone` of `serde_json::Number` returns a copy of the number.
pub assume_specification[ <serde_json::Number as Clone>::clone ](
    n: &serde_json::Number,
) -> (r: serde_json::Number)
    ensures
        r == *n,
;

/// A JSON document held in memory. An object lists its members in the order
/// in which they were given; where a key occurs twice, the later member counts.
#[derive(Debug, PartialEq)]
pub enum Json {
    Null,
    Bool(bool),
    Number(serde_json::Number),
    Text(String),
    Array(Vec<Json>),
    Object(Vec<(String, Json)>),
}

/// The mathematical value of a [`Json`] document. A number is held as the text
/// that stands for it.
pub enum JsonValue {
    Null,
    Bool(bool),
    Number(Seq<char>),
    Text(Seq<char>),
    Array(Seq<JsonValue>),
    Object(Seq<(Seq<char>, JsonValue)>),
}

/// The value of a document.
pub open spec fn value_of(json: Json) -> JsonValue
    decreases json,
{
    match json {
        Json::Null => JsonValue::Null,
        Json::Bool(b) => JsonValue::Bool(b),
        Json::Number(n) => JsonValue::Number(number_text(n)),
        Json::Text(s) => JsonValue::Text(s@),
        Json::Array(items) => JsonValue::Array(
            Seq::new(
                items@.len(),
                |i: int|
                    if 0 <= i < items@.len() {
                        value_of(items[i])
                    } else {
                        JsonValue::Null
                    },
            ),
        ),
        Json::Object(members) => JsonValue::Object(
            Seq::new(
                members@.len(),
                |i: int|
                    if 0 <= i < members@.len() {
                        (members[i].0@, value_of(members[i].1))
                    } else {
                        (Seq::empty(), JsonValue::Null)
                    },
            ),
        ),
    }
}

impl View for Json {
    type V = JsonValue;

    open spec fn view(&self) -> JsonValue {
        value_of(*self)
    }
}

/// The value bound to `key` among `members`: that of the last member with
/// this key.
pub open spec fn member(members: Seq<(Seq<char>, JsonValue)>, key: Seq<char>) -> Option<JsonValue>
    decreases members.len(),
{
    if members.len() == 0 {
        None
    } else if members.last().0 == key {
        Some(members.last().1)
    } else {
        member(members.drop_last(), key)
    }
}

impl JsonValue {
    /// The member `key` of an object; `None` for any other value and for an
    /// object without that key.
    pub open spec fn get(self, key: Seq<char>) -> Option<JsonValue> {
        match self {
            JsonValue::Object(members) => member(members, key),
            _ => None,
        }
    }

    /// The text of a string value.
    pub open spec fn as_text(self) -> Option<Seq<char>> {
        match self {
            JsonValue::Text(s) => Some(s),
            _ => None,
        }
    }

    /// The truth value of a boolean.
    pub open spec fn as_bool(self) -> Option<bool> {
        match self {
            JsonValue::Bool(b) => Some(b),
            _ => None,
        }
    }

    /// The items of an array.
    pub open spec fn as_array(self) -> Option<Seq<JsonValue>> {
        match self {
            JsonValue::Array(items) => Some(items),
            _ => None,
        }
    }

    /// The text of the string member `key`, if the value is an object that
    /// binds `key` to a string.
    pub open spec fn text_member(self, key: Seq<char>) -> Option<Seq<char>> {
        match self.get(key) {
            Some(v) => v.as_text(),
            None => None,
        }
    }

    /// The truth value of the boolean member `key`.
    pub open spec fn bool_member(self, key: Seq<char>) -> Option<bool> {
        match self.get(key) {
            Some(v) => v.as_bool(),
            None => None,
        }
    }

    /// The texts of an array of strings; `None` for any other value.
    pub open spec fn as_texts(self) -> Option<Seq<Seq<char>>> {
        match self {
            JsonValue::Array(items) => if all_text(items) {
                Some(text_items(items))
            } else {
                None
            },
            _ => None,
        }
    }

    /// The object with the two members `first` and `second`, in this order.
    pub open spec fn pair(
        first: Seq<char>,
        a: JsonValue,
        second: Seq<char>,
        b: JsonValue,
    ) -> JsonValue {
        JsonValue::Object(seq![(first, a), (second, b)])
    }
}

/// Whether every item is a string.
pub open spec fn all_text(items: Seq<JsonValue>) -> bool {
    forall|i: int| 0 <= i < items.len() ==> (#[trigger] items[i]) is Text
}

/// The texts of the items, where every item is a string.
pub open spec fn text_items(items: Seq<JsonValue>) -> Seq<Seq<char>> {
    Seq::new(items.len(), |i: int| items[i]->Text_0)
}

/// The values of the members of an object, as [`value_of`] lists them.
pub open spec fn members_value(members: Seq<(String, Json)>) -> Seq<(Seq<char>, JsonValue)> {
    Seq::new(members.len(), |i: int| (members[i].0@, value_of(members[i].1)))
}

/// The values of the items of an array, as [`value_of`] lists them.
pub open spec fn items_value(items: Seq<Json>) -> Seq<JsonValue> {
    Seq::new(items.len(), |i: int| value_of(items[i]))
}

/// Looking up a key among members to which one was added gives the added
/// value for its own key and what was bound before for any other.
pub proof fn lemma_member_push(
    members: Seq<(Seq<char>, JsonValue)>,
    key: Seq<char>,
    value: JsonValue,
    wanted: Seq<char>,
)
    ensures
        member(members.push((key, value)), wanted) == if key == wanted {
            Some(value)
        } else {
            member(members, wanted)
        },
{
    assert(members.push((key, value)).drop_last() =~= members);
}

/// The value of an object is the list of its members' values.
pub proof fn lemma_object_value(members: Vec<(String, Json)>)
    ensures
        Json::Object(members)@ == JsonValue::Object(members_value(members@)),
{
    assert(Json::Object(members)@->Object_0 =~= members_value(members@));
}

/// The value of an array is the list of its items' values.
pub proof fn lemma_array_value(items: Vec<Json>)
    ensures
        Json::Array(items)@ == JsonValue::Array(items_value(items@)),
{
    assert(Json::Array(items)@->Array_0 =~= items_value(items@));
}

impl Clone for Json {
    #[verifier::loop_isolation(false)]
    fn clone(&self) -> (copy: Json)
        ensures
            copy@ == self@,
        decreases self,
    {
        match self {
            Json::Null => Json::Null,
            Json::Bool(b) => Json::Bool(*b),
            Json::Number(n) => Json::Number(n.clone()),
            Json::Text(s) => Json::Text(s.clone()),
            Json::Array(items) => {
                let mut out: Vec<Json> = Vec::new();
                let mut i: usize = 0;
                while i < items.len()
                    invariant
                        i <= items.len(),
                        out@.len() == i,
                        forall|k: int| 0 <= k < i ==> (#[trigger] out@[k])@ == items@[k]@,
                    decreases items.len() - i,
                {
                    let item = items[i].clone();
                    out.push(item);
                    i += 1;
                }
                proof {
                    lemma_array_value(*items);
                    lemma_array_value(out);
                    assert(items_value(out@) =~= items_value(items@));
                }
                Json::Array(out)
            },
            Json::Object(members) => {
                let mut out: Vec<(String, Json)> = Vec::new();
                let mut i: usize = 0;
                while i < members.len()
                    invariant
                        i <= members.len(),
                        out@.len() == i,
                        forall|k: int|
                            0 <= k < i ==> (#[trigger] out@[k]).0@ == members@[k].0@ && out@[k].1@
                                == members@[k].1@,
                    decreases members.len() - i,
                {
                    let key = members[i].0.clone();
                    let value = members[i].1.clone();
                    out.push((key, value));
                    i += 1;
                }
                proof {
                    lemma_object_value(*members);
                    lemma_object_value(out);
                    assert(members_value(out@) =~= members_value(members@));
                }
                Json::Object(out)
            },
        }
    }
}

impl Json {
    /// The member `key` of an object.
    pub fn get(&self, key: &str) -> (found: Option<&Json>)
        ensures
            match found {
                Some(j) => self@.get(key@) == Some(j@),
                None => self@.get(key@) is None,
            },
    {
        match self {
            Json::Object(members) => {
                proof {
                    lemma_object_value(*members);
                }
                let ghost all = members_value(members@);
                let mut n: usize = members.len();
                assert(all.take(n as int) =~= all);
                while n > 0
                    invariant
                        n <= members.len(),
                        all == members_value(members@),
                        self@ == JsonValue::Object(all),
                        member(all, key@) == member(all.take(n as int), key@),
                    decreases n,
                {
                    n -= 1;
                    proof {
                        let upto = all.take(n + 1);
                        assert(upto.last() == all[n as int]);
                        assert(upto.drop_last() =~= all.take(n as int));
                        assert(all[n as int] == (members@[n as int].0@, members@[n as int].1@));
                    }
                    if str_equal(members[n].0.as_str(), key) {
                        return Some(&members[n].1);
                    }
                }
                assert(all.take(0).len() == 0);
                None
            },
            _ => None,
        }
    }

    /// The text of a string document.
    pub fn as_str(&self) -> (text: Option<&str>)
        ensures
            match text {
                Some(s) => self@.as_text() == Some(s@),
                None => self@.as_text() is None,
            },
    {
        match self {
            Json::Text(s) => Some(s.as_str()),
            _ => None,
        }
    }

    /// The truth value of a boolean document.
    pub fn as_bool(&self) -> (b: Option<bool>)
        ensures
            b == self@.as_bool(),
    {
        match self {
            Json::Bool(b) => Some(*b),
            _ => None,
        }
    }

    /// The items of an array document.
    pub fn as_array(&self) -> (items: Option<&Vec<Json>>)
        ensures
            match items {
                Some(v) => self@.as_array() == Some(items_value(v@)),
                None => self@.as_array() is None,
            },
    {
        match self {
            Json::Array(items) => {
                proof {
                    lemma_array_value(*items);
                }
                Some(items)
            },
            _ => None,
        }
    }

    /// The texts of an array of strings.
    pub fn as_texts(&self) -> (found: Option<Vec<String>>)
        ensures
            match found {
                Some(v) => self@.as_texts() == Some(texts(v@)),
                None => self@.as_texts() is None,
            },
    {
        match self {
            Json::Array(items) => {
                proof {
                    lemma_array_value(*items);
                }
                let ghost values = items_value(items@);
                let mut out: Vec<String> = Vec::new();
                let mut i: usize = 0;
                while i < items.len()
                    invariant
                        i <= items.len(),
                        values == items_value(items@),
                        self@ == JsonValue::Array(values),
                        out@.len() == i,
                        forall|k: int| 0 <= k < i ==> (#[trigger] values[k]) is Text,
                        forall|k: int| 0 <= k < i ==> (#[trigger] out@[k])@ == values[k]->Text_0,
                    decreases items.len() - i,
                {
                    match &items[i] {
                        Json::Text(s) => {
                            out.push(s.clone());
                        },
                        _ => {
                            assert(values[i as int] == items@[i as int]@);
                            assert(!(values[i as int] is Text));
                            return None;
                        },
                    }
                    i += 1;
                }
                assert(all_text(values));
                assert(text_items(values) =~= texts(out@));
                Some(out)
            },
            _ => None,
        }
    }

    /// The text of the string member `key`.
    pub fn text_member(&self, key: &str) -> (text: Option<&str>)
        ensures
            match text {
                Some(s) => self@.text_member(key@) == Some(s@),
                None => self@.text_member(key@) is None,
            },
    {
        match self.get(key) {
            Some(v) => v.as_str(),
            None => None,
        }
    }

    /// The truth value of the boolean member `key`.
    pub fn bool_member(&self, key: &str) -> (b: Option<bool>)
        ensures
            b == self@.bool_member(key@),
    {
        match self.get(key) {
            Some(v) => v.as_bool(),
            None => None,
        }
    }

    /// A string document.
    pub fn text(s: &str) -> (json: Json)
        ensures
            json@ == JsonValue::Text(s@),
    {
        Json::Text(String::from_str(s))
    }

    /// The number `n`.
    pub fn from_u64(n: u64) -> (json: Json)
        ensures
            json@ == JsonValue::Number(decimal(n as nat)),
    {
        Json::Number(number_from_u64(n))
    }

    /// The object with the two members `first` and `second`, in this order.
    pub fn pair(first: &str, a: Json, second: &str, b: Json) -> (json: Json)
        ensures
            json@ == JsonValue::pair(first@, a@, second@, b@),
    {
        let mut members: Vec<(String, Json)> = Vec::new();
        members.push((String::from_str(first), a));
        members.push((String::from_str(second), b));
        proof {
            lemma_object_value(members);
            assert(members_value(members@) =~= seq![(first@, a@), (second@, b@)]);
        }
        Json::Object(members)
    }

    /// The object with the given members, in their order.
    pub fn object(members: Vec<(String, Json)>) -> (json: Json)
        ensures
            json@ == JsonValue::Object(members_value(members@)),
    {
        proof {
            lemma_object_value(members);
        }
        Json::Object(members)
    }

    /// The array with the given items, in their order.
    pub fn array(items: Vec<Json>) -> (json: Json)
        ensures
            json@ == JsonValue::Array(items_value(items@)),
    {
        proof {
            lemma_array_value(items);
        }
        Json::Array(items)
    }

    /// Reads a document from JSON text. The error carries what the reader
    /// found wrong with the text.
    pub fn parse(text: &str) -> (parsed: Result<Json, String>)
        ensures
            match parsed {
                Ok(json) => json_parse(text@) == Some(json@),
                Err(_) => json_parse(text@) is None,
            },
    {
        match read_document(text) {
            Ok(json) => Ok(json),
            Err(e) => Err(parse_error_text(&e)),
        }
    }

    /// Prints the document as compact JSON text.
    pub fn to_text(&self) -> (text: String)
        ensures
            text@ == json_text(self@),
    {
        print_document(self)
    }
}

/// Adds the member `key` with the given value at the end of `members`.
pub fn push_member(members: &mut Vec<(String, Json)>, key: &str, value: Json)
    ensures
        members_value(final(members)@) == members_value(old(members)@).push((key@, value@)),
{
    members.push((String::from_str(key), value));
    assert(members_value(members@) =~= members_value(old(members)@).push((key@, value@)));
}

/// `From<u64>` of `serde_json::Number`: the number that prints as the decimal
/// digits of `n`, without sign and without leading zeros.
#[verifier::external_body]
fn number_from_u64(n: u64) -> (number: serde_json::Number)
    ensures
        number_text(number) == decimal(n as nat),
{
    serde_json::Number::from(n)
}

/// Turns a `serde_json::Value` into a document, variant by variant. The
/// members of an object come in the order in which the map of the value
/// walks them. Nothing is claimed of the result here; [`read_document`]
/// makes the claim for the reading as a whole.
#[verifier::external_body]
fn document_of(value: Value) -> Json {
    match value {
        Value::Null => Json::Null,
        Value::Bool(b) => Json::Bool(b),
        Value::Number(n) => Json::Number(n),
        Value::String(s) => Json::Text(s),
        Value::Array(items) => Json::Array(items.into_iter().map(document_of).collect()),
        Value::Object(map) => Json::Object(
            map.into_iter().map(|(k, v)| (k, document_of(v))).collect(),
        ),
    }
}

/// Turns a document into a `serde_json::Value`, variant by variant. The
/// members of an object are collected into the map of the value in their
/// order, so a later member replaces an earlier one with the same key.
/// Nothing is claimed of the result here; [`print_document`] makes the claim
/// for the printing as a whole.
#[verifier::external_body]
fn value_of_document(json: &Json) -> Value {
    match json {
        Json::Null => Value::Null,
        Json::Bool(b) => Value::Bool(*b),
        Json::Number(n) => Value::Number(n.clone()),
        Json::Text(s) => Value::String(s.clone()),
        Json::Array(items) => Value::Array(items.iter().map(value_of_document).collect()),
        Json::Object(members) => Value::Object(
            members.iter().map(|m| (m.0.clone(), value_of_document(&m.1))).collect(),
        ),
    }
}

/// `serde_json::from_str` at the type `Value`, and the value turned into a
/// document. Whether the text is read, and as which document, depends on the
/// text alone.
#[verifier::external_body]
fn read_document(text: &str) -> (parsed: Result<Json, serde_json::Error>)
    ensures
        match parsed {
            Ok(json) => json_parse(text@) == Some(json@),
            Err(_) => json_parse(text@) is None,
        },
{
    serde_json::from_str::<Value>(text).map(document_of)
}

/// `Display` of the `serde_json::Value` that holds the document: compact
/// JSON text, as `serde_json::to_string` writes it. The text depends on the
/// value of the document alone.
#[verifier::external_body]
fn print_document(json: &Json) -> (text: String)
    ensures
        text@ == json_text(json@),
{
    value_of_document(json).to_string()
}

/// `Display` of `serde_json::Error`: the words of the reader. Nothing is
/// claimed of them.
#[verifier::external_body]
fn parse_error_text(error: &serde_json::Error) -> String {
    error.to_string()
}

} // verus!
