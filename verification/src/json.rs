//! JSON values as the library reads and builds them: tool arguments, request
//! bodies, stream payloads and log entries. Text is turned into values at the
//! edge of the program; values are printed as text by `serde_json`.
use vstd::prelude::*;

use crate::text::{chars_eq, chars_of, str_eq};

verus! {

/// A JSON number: a non-negative integer, a negative integer, or any other
/// number kept as the text it was written as.
#[derive(Clone, Debug)]
pub enum JsonNumber {
    Unsigned(u64),
    Signed(i64),
    Other(String),
}

/// A JSON value. Object members keep their order; lookups take the first
/// member with the requested key.
#[derive(Debug)]
pub enum JsonValue {
    Null,
    Bool(bool),
    Number(JsonNumber),
    Str(String),
    Array(Vec<JsonValue>),
    Object(Vec<(String, JsonValue)>),
}

/// The mathematical content of a [`JsonNumber`].
pub enum NumberView {
    Unsigned(u64),
    Signed(i64),
    Other(Seq<char>),
}

/// The mathematical content of a [`JsonValue`].
pub enum JsonView {
    Null,
    Bool(bool),
    Number(NumberView),
    Str(Seq<char>),
    Array(Seq<JsonView>),
    Object(Seq<(Seq<char>, JsonView)>),
}

pub open spec fn number_view(n: JsonNumber) -> NumberView {
    match n {
        JsonNumber::Unsigned(u) => NumberView::Unsigned(u),
        JsonNumber::Signed(i) => NumberView::Signed(i),
        JsonNumber::Other(s) => NumberView::Other(s@),
    }
}

/// The view of a JSON value: strings become character sequences.
pub open spec fn json_view(j: JsonValue) -> JsonView
    decreases j,
{
    match j {
        JsonValue::Null => JsonView::Null,
        JsonValue::Bool(b) => JsonView::Bool(b),
        JsonValue::Number(n) => JsonView::Number(number_view(n)),
        JsonValue::Str(s) => JsonView::Str(s@),
        JsonValue::Array(items) => JsonView::Array(
            Seq::new(
                items@.len(),
                |i: int|
                    if 0 <= i < items@.len() {
                        json_view(items@[i])
                    } else {
                        JsonView::Null
                    },
            ),
        ),
        JsonValue::Object(es) => JsonView::Object(
            Seq::new(
                es@.len(),
                |i: int|
                    if 0 <= i < es@.len() {
                        (es@[i].0@, json_view(es@[i].1))
                    } else {
                        (Seq::empty(), JsonView::Null)
                    },
            ),
        ),
    }
}

impl View for JsonNumber {
    type V = NumberView;

    open spec fn view(&self) -> NumberView {
        number_view(*self)
    }
}

impl View for JsonValue {
    type V = JsonView;

    open spec fn view(&self) -> JsonView {
        json_view(*self)
    }
}

/// The views of a sequence of values.
pub open spec fn views(items: Seq<JsonValue>) -> Seq<JsonView> {
    items.map_values(|x: JsonValue| json_view(x))
}

/// The views of a sequence of object members.
pub open spec fn member_views(es: Seq<(String, JsonValue)>) -> Seq<(Seq<char>, JsonView)> {
    es.map_values(|e: (String, JsonValue)| (e.0@, json_view(e.1)))
}

pub proof fn lemma_array_view(items: Vec<JsonValue>)
    ensures
        json_view(JsonValue::Array(items)) == JsonView::Array(views(items@)),
{
    assert(json_view(JsonValue::Array(items))->Array_0 =~= views(items@));
}

pub proof fn lemma_object_view(es: Vec<(String, JsonValue)>)
    ensures
        json_view(JsonValue::Object(es)) == JsonView::Object(member_views(es@)),
{
    assert(json_view(JsonValue::Object(es))->Object_0 =~= member_views(es@));
}

/// The first member of `entries` whose key is `key`.
pub open spec fn lookup(entries: Seq<(Seq<char>, JsonView)>, key: Seq<char>) -> Option<JsonView>
    decreases entries.len(),
{
    if entries.len() == 0 {
        None
    } else if entries[0].0 == key {
        Some(entries[0].1)
    } else {
        lookup(entries.drop_first(), key)
    }
}

/// `Value::get` with a string key: the member of an object, `None` otherwise.
pub open spec fn spec_get(v: JsonView, key: Seq<char>) -> Option<JsonView> {
    match v {
        JsonView::Object(entries) => lookup(entries, key),
        _ => None,
    }
}

/// `Value::as_str`.
pub open spec fn spec_as_str(v: JsonView) -> Option<Seq<char>> {
    match v {
        JsonView::Str(s) => Some(s),
        _ => None,
    }
}

/// `Value::as_u64`.
pub open spec fn spec_as_u64(v: JsonView) -> Option<u64> {
    match v {
        JsonView::Number(NumberView::Unsigned(n)) => Some(n),
        _ => None,
    }
}

/// `Value::as_bool`.
pub open spec fn spec_as_bool(v: JsonView) -> Option<bool> {
    match v {
        JsonView::Bool(b) => Some(b),
        _ => None,
    }
}

/// `Value::as_array`.
pub open spec fn spec_as_array(v: JsonView) -> Option<Seq<JsonView>> {
    match v {
        JsonView::Array(items) => Some(items),
        _ => None,
    }
}

/// `v.get(key).and_then(|x| x.as_str())`.
pub open spec fn spec_get_str(v: JsonView, key: Seq<char>) -> Option<Seq<char>> {
    match spec_get(v, key) {
        Some(x) => spec_as_str(x),
        None => None,
    }
}

/// `v.get(key).and_then(|x| x.as_u64())`.
pub open spec fn spec_get_u64(v: JsonView, key: Seq<char>) -> Option<u64> {
    match spec_get(v, key) {
        Some(x) => spec_as_u64(x),
        None => None,
    }
}

/// `v.get(key).and_then(|x| x.as_bool())`.
pub open spec fn spec_get_bool(v: JsonView, key: Seq<char>) -> Option<bool> {
    match spec_get(v, key) {
        Some(x) => spec_as_bool(x),
        None => None,
    }
}

/// `v.get(key).and_then(|x| x.as_array())`.
pub open spec fn spec_get_array(v: JsonView, key: Seq<char>) -> Option<Seq<JsonView>> {
    match spec_get(v, key) {
        Some(x) => spec_as_array(x),
        None => None,
    }
}

impl JsonNumber {
    /// A copy of this number.
    pub fn copy(&self) -> (r: JsonNumber)
        ensures
            r@ == self@,
    {
        match self {
            JsonNumber::Unsigned(n) => JsonNumber::Unsigned(*n),
            JsonNumber::Signed(n) => JsonNumber::Signed(*n),
            JsonNumber::Other(s) => JsonNumber::Other(s.clone()),
        }
    }
}

impl JsonValue {
    /// A copy of this value.
    pub fn copy(&self) -> (r: JsonValue)
        ensures
            r@ == self@,
        decreases self,
    {
        match self {
            JsonValue::Null => JsonValue::Null,
            JsonValue::Bool(b) => JsonValue::Bool(*b),
            JsonValue::Number(n) => JsonValue::Number(n.copy()),
            JsonValue::Str(s) => JsonValue::Str(s.clone()),
            JsonValue::Array(items) => {
                let mut out: Vec<JsonValue> = Vec::new();
                let mut i: usize = 0;
                while i < items.len()
                    invariant
                        *self is Array,
                        self->Array_0@ == items@,
                        i <= items@.len(),
                        out@.len() == i,
                        forall|k: int| 0 <= k < i ==> json_view(#[trigger] out@[k]) == json_view(items@[k]),
                    decreases items@.len() - i,
                {
                    proof {
                        assert(decreases_to!(*self => self->Array_0));
                        assert(decreases_to!(self->Array_0 => self->Array_0@));
                        assert(decreases_to!(self->Array_0@ => self->Array_0@[i as int]));
                    }
                    let c = items[i].copy();
                    out.push(c);
                    i = i + 1;
                }
                let r = JsonValue::Array(out);
                assert(json_view(r)->Array_0 =~= json_view(*self)->Array_0);
                r
            },
            JsonValue::Object(entries) => {
                let mut out: Vec<(String, JsonValue)> = Vec::new();
                let mut i: usize = 0;
                while i < entries.len()
                    invariant
                        *self is Object,
                        self->Object_0@ == entries@,
                        i <= entries@.len(),
                        out@.len() == i,
                        forall|k: int|
                            0 <= k < i ==> (#[trigger] out@[k]).0@ == entries@[k].0@ && json_view(
                                out@[k].1,
                            ) == json_view(entries@[k].1),
                    decreases entries@.len() - i,
                {
                    proof {
                        assert(decreases_to!(*self => self->Object_0));
                        assert(decreases_to!(self->Object_0 => self->Object_0@));
                        assert(decreases_to!(self->Object_0@ => self->Object_0@[i as int]));
                        assert(decreases_to!(self->Object_0@[i as int] => self->Object_0@[i as int].1));
                    }
                    let c = entries[i].1.copy();
                    out.push((entries[i].0.clone(), c));
                    i = i + 1;
                }
                let r = JsonValue::Object(out);
                assert(json_view(r)->Object_0 =~= json_view(*self)->Object_0);
                r
            },
        }
    }

    /// The member with key `key`, when this is an object that has one.
    pub fn get<'a>(&'a self, key: &str) -> (r: Option<&'a JsonValue>)
        ensures
            match r {
                Some(x) => spec_get(self@, key@) == Some(x@),
                None => spec_get(self@, key@) is None,
            },
    {
        match self {
            JsonValue::Object(entries) => {
                proof {
                    lemma_object_view(*entries);
                }
                let ghost ms = member_views(entries@);
                let k = chars_of(key);
                let mut i: usize = 0;
                assert(ms.subrange(0, ms.len() as int) =~= ms);
                while i < entries.len()
                    invariant
                        i <= entries@.len(),
                        k@ == key@,
                        ms == member_views(entries@),
                        self@ == JsonView::Object(ms),
                        lookup(ms, key@) == lookup(ms.subrange(i as int, ms.len() as int), key@),
                    decreases entries@.len() - i,
                {
                    let ek = chars_of(entries[i].0.as_str());
                    let ghost rest = ms.subrange(i as int, ms.len() as int);
                    assert(rest[0] == ms[i as int]);
                    assert(ms[i as int] == (entries@[i as int].0@, json_view(entries@[i as int].1)));
                    if chars_eq(ek.as_slice(), k.as_slice()) {
                        return Some(&entries[i].1);
                    }
                    assert(rest.drop_first() =~= ms.subrange(i + 1, ms.len() as int));
                    i = i + 1;
                }
                None
            },
            _ => None,
        }
    }

    /// The text of a string value.
    pub fn as_str(&self) -> (r: Option<&str>)
        ensures
            match r {
                Some(s) => spec_as_str(self@) == Some(s@),
                None => spec_as_str(self@) is None,
            },
    {
        match self {
            JsonValue::Str(s) => Some(s.as_str()),
            _ => None,
        }
    }

    /// A non-negative integer value.
    pub fn as_u64(&self) -> (r: Option<u64>)
        ensures
            r == spec_as_u64(self@),
    {
        match self {
            JsonValue::Number(JsonNumber::Unsigned(n)) => Some(*n),
            _ => None,
        }
    }

    /// A boolean value.
    pub fn as_bool(&self) -> (r: Option<bool>)
        ensures
            r == spec_as_bool(self@),
    {
        match self {
            JsonValue::Bool(b) => Some(*b),
            _ => None,
        }
    }

    /// The items of an array value.
    pub fn as_array(&self) -> (r: Option<&Vec<JsonValue>>)
        ensures
            match r {
                Some(items) => spec_as_array(self@) == Some(views(items@)),
                None => spec_as_array(self@) is None,
            },
    {
        match self {
            JsonValue::Array(items) => {
                proof {
                    lemma_array_view(*items);
                }
                Some(items)
            },
            _ => None,
        }
    }

    /// `self.get(key).and_then(|v| v.as_str())`.
    pub fn get_str<'a>(&'a self, key: &str) -> (r: Option<&'a str>)
        ensures
            match r {
                Some(s) => spec_get_str(self@, key@) == Some(s@),
                None => spec_get_str(self@, key@) is None,
            },
    {
        match self.get(key) {
            Some(v) => v.as_str(),
            None => None,
        }
    }

    /// `self.get(key).and_then(|v| v.as_u64())`.
    pub fn get_u64(&self, key: &str) -> (r: Option<u64>)
        ensures
            r == spec_get_u64(self@, key@),
    {
        match self.get(key) {
            Some(v) => v.as_u64(),
            None => None,
        }
    }

    /// `self.get(key).and_then(|v| v.as_bool())`.
    pub fn get_bool(&self, key: &str) -> (r: Option<bool>)
        ensures
            r == spec_get_bool(self@, key@),
    {
        match self.get(key) {
            Some(v) => v.as_bool(),
            None => None,
        }
    }

    /// `self.get(key).and_then(|v| v.as_array())`.
    pub fn get_array<'a>(&'a self, key: &str) -> (r: Option<&'a Vec<JsonValue>>)
        ensures
            match r {
                Some(items) => spec_get_array(self@, key@) == Some(views(items@)),
                None => spec_get_array(self@, key@) is None,
            },
    {
        match self.get(key) {
            Some(v) => v.as_array(),
            None => None,
        }
    }
}

impl Clone for JsonValue {
    fn clone(&self) -> (r: Self)
        ensures
            r@ == self@,
    {
        self.copy()
    }
}

/// A string value holding the characters of `s`.
pub fn json_str(s: &str) -> (r: JsonValue)
    ensures
        r@ == JsonView::Str(s@),
{
    JsonValue::Str(s.to_owned())
}

/// An unsigned number value.
pub fn json_u64(n: u64) -> (r: JsonValue)
    ensures
        r@ == JsonView::Number(NumberView::Unsigned(n)),
{
    JsonValue::Number(JsonNumber::Unsigned(n))
}

/// Whether a value is the string `s`.
pub fn json_str_eq(v: &JsonValue, s: &str) -> (r: bool)
    ensures
        r == (spec_as_str(v@) == Some(s@)),
{
    match v {
        JsonValue::Str(x) => str_eq(x.as_str(), s),
        _ => false,
    }
}

/// Appends the member `key: value` to an object's member list.
pub fn push_member(entries: &mut Vec<(String, JsonValue)>, key: &str, value: JsonValue)
    ensures
        member_views(final(entries)@) == member_views(old(entries)@).push((key@, value@)),
{
    let ghost before = member_views(entries@);
    entries.push((key.to_owned(), value));
    assert(member_views(entries@) =~= before.push((key@, value@)));
}

/// An object value built from its member list.
pub fn json_object(entries: Vec<(String, JsonValue)>) -> (r: JsonValue)
    ensures
        r@ == JsonView::Object(member_views(entries@)),
{
    proof {
        lemma_object_view(entries);
    }
    JsonValue::Object(entries)
}

/// An array value built from its items.
pub fn json_array(items: Vec<JsonValue>) -> (r: JsonValue)
    ensures
        r@ == JsonView::Array(views(items@)),
{
    proof {
        lemma_array_view(items);
    }
    JsonValue::Array(items)
}

/// Declares `serde_json::Value`, which the printers below hand values to.
#[verifier::external_type_specification]
#[verifier::external_body]
pub struct ExSerdeValue(serde_json::Value);

/// The compact text `serde_json` prints for a value (`Value::to_string`).
pub uninterp spec fn json_compact(v: JsonView) -> Seq<char>;

/// The pretty-printed text `serde_json` prints for a value
/// (`serde_json::to_string_pretty`).
pub uninterp spec fn json_pretty(v: JsonView) -> Seq<char>;

/// The `serde_json::Value` for a value, member for member; a number kept as
/// text becomes the number that text parses to.
#[verifier::external_body]
fn serde_value(v: &JsonValue) -> serde_json::Value {
    match v {
        JsonValue::Null => serde_json::Value::Null,
        JsonValue::Bool(b) => serde_json::Value::Bool(*b),
        JsonValue::Number(JsonNumber::Unsigned(u)) => serde_json::Value::from(*u),
        JsonValue::Number(JsonNumber::Signed(i)) => serde_json::Value::from(*i),
        JsonValue::Number(JsonNumber::Other(t)) => serde_json::from_str(t).unwrap_or(serde_json::Value::Null),
        JsonValue::Str(s) => serde_json::Value::String(s.clone()),
        JsonValue::Array(a) => serde_json::Value::Array(a.iter().map(serde_value).collect()),
        JsonValue::Object(m) => serde_json::Value::Object(m.iter().map(|(k, x)| (k.clone(), serde_value(x))).collect()),
    }
}

/// `serde_json::Value::to_string`: the compact JSON text of `v`. The contract
/// claims the text is `json_compact` of the value, a function of it alone.
#[verifier::external_body]
pub(crate) fn compact_text(v: &JsonValue) -> (r: String)
    ensures
        r@ == json_compact(v@),
{
    serde_value(v).to_string()
}

/// `serde_json::to_string_pretty`: the pretty-printed JSON text of `v`. The
/// contract claims the text is `json_pretty` of the value, a function of it
/// alone.
#[verifier::external_body]
pub(crate) fn pretty_text(v: &JsonValue) -> (r: String)
    ensures
        r@ == json_pretty(v@),
{
    serde_json::to_string_pretty(&serde_value(v)).unwrap_or_default()
}

} // verus!
