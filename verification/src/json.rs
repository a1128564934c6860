//! A JSON document model of plain values, its mathematical view, and the
//! calls into `serde_json` that read and write JSON text.

use vstd::prelude::*;

use serde_json::{Number, Value};

use crate::text::{owned, str_eq};

verus! {

broadcast use vstd::std_specs::vec::group_vec_axioms;

/// A JSON number as `serde_json` keeps it: a non-negative integer, a negative
/// integer, or any other number, held as its decimal text.
#[derive(Debug)]
pub enum JsonNumber {
    PosInt(u64),
    NegInt(i64),
    Float(String),
}

/// A JSON value. An object keeps its entries in a sequence; lookups take the
/// first entry with a key.
#[derive(Debug)]
pub enum JsonValue {
    Null,
    Bool(bool),
    Number(JsonNumber),
    Str(String),
    Array(Vec<JsonValue>),
    Object(Vec<(String, JsonValue)>),
}

/// The mathematical view of a [`JsonNumber`].
pub enum NumberView {
    PosInt(u64),
    NegInt(i64),
    Float(Seq<char>),
}

/// The mathematical view of a [`JsonValue`].
pub enum Json {
    Null,
    Bool(bool),
    Number(NumberView),
    Str(Seq<char>),
    Array(Seq<Json>),
    Object(Seq<(Seq<char>, Json)>),
}

/// The view of a number.
pub open spec fn number_view(n: JsonNumber) -> NumberView {
    match n {
        JsonNumber::PosInt(u) => NumberView::PosInt(u),
        JsonNumber::NegInt(i) => NumberView::NegInt(i),
        JsonNumber::Float(s) => NumberView::Float(s@),
    }
}

/// The view of a value.
pub open spec fn json_view(v: JsonValue) -> Json
    decreases v,
{
    match v {
        JsonValue::Null => Json::Null,
        JsonValue::Bool(b) => Json::Bool(b),
        JsonValue::Number(n) => Json::Number(number_view(n)),
        JsonValue::Str(s) => Json::Str(s@),
        JsonValue::Array(items) => Json::Array(items_view(items@)),
        JsonValue::Object(entries) => Json::Object(entries_view(entries@)),
    }
}

/// The views of a sequence of values.
pub open spec fn items_view(s: Seq<JsonValue>) -> Seq<Json>
    decreases s,
{
    if s.len() == 0 {
        Seq::empty()
    } else {
        seq![json_view(s[0])] + items_view(s.subrange(1, s.len() as int))
    }
}

/// The views of a sequence of object entries.
pub open spec fn entries_view(s: Seq<(String, JsonValue)>) -> Seq<(Seq<char>, Json)>
    decreases s,
{
    if s.len() == 0 {
        Seq::empty()
    } else {
        seq![(s[0].0@, json_view(s[0].1))] + entries_view(s.subrange(1, s.len() as int))
    }
}

impl View for JsonValue {
    type V = Json;

    open spec fn view(&self) -> Json {
        json_view(*self)
    }
}

/// The view of a value behind a reference.
pub open spec fn json_view_of(v: &JsonValue) -> Json {
    v@
}

/// The value of the first entry of `entries` with key `key`.
pub open spec fn entries_get(entries: Seq<(Seq<char>, Json)>, key: Seq<char>) -> Option<Json>
    decreases entries.len(),
{
    if entries.len() == 0 {
        None
    } else if entries[0].0 == key {
        Some(entries[0].1)
    } else {
        entries_get(entries.drop_first(), key)
    }
}

/// Whether some entry of `entries` has key `key`.
pub open spec fn entries_has(entries: Seq<(Seq<char>, Json)>, key: Seq<char>) -> bool {
    entries_get(entries, key) is Some
}

impl Json {
    /// The member `key` of an object; nothing for another value.
    pub open spec fn get(self, key: Seq<char>) -> Option<Json> {
        match self {
            Json::Object(entries) => entries_get(entries, key),
            _ => None,
        }
    }

    /// The text of a string value.
    pub open spec fn as_str(self) -> Option<Seq<char>> {
        match self {
            Json::Str(s) => Some(s),
            _ => None,
        }
    }

    /// The value of a non-negative integer.
    pub open spec fn as_u64(self) -> Option<u64> {
        match self {
            Json::Number(NumberView::PosInt(u)) => Some(u),
            _ => None,
        }
    }

    /// The value of a boolean.
    pub open spec fn as_bool(self) -> Option<bool> {
        match self {
            Json::Bool(b) => Some(b),
            _ => None,
        }
    }

    /// The member `key`, as `get` gives it, or `Null` when it is absent.
    pub open spec fn member(self, key: Seq<char>) -> Json {
        match self.get(key) {
            Some(v) => v,
            None => Json::Null,
        }
    }

    /// The member `key` as a string.
    pub open spec fn str_member(self, key: Seq<char>) -> Option<Seq<char>> {
        match self.get(key) {
            Some(v) => v.as_str(),
            None => None,
        }
    }

    /// The member `key` as a non-negative integer.
    pub open spec fn u64_member(self, key: Seq<char>) -> Option<u64> {
        match self.get(key) {
            Some(v) => v.as_u64(),
            None => None,
        }
    }

    /// The member `key` as a boolean.
    pub open spec fn bool_member(self, key: Seq<char>) -> Option<bool> {
        match self.get(key) {
            Some(v) => v.as_bool(),
            None => None,
        }
    }

    /// The entries of an object.
    pub open spec fn entries(self) -> Seq<(Seq<char>, Json)> {
        match self {
            Json::Object(e) => e,
            _ => Seq::empty(),
        }
    }
}

pub proof fn lemma_items_view_len(s: Seq<JsonValue>)
    ensures
        items_view(s).len() == s.len(),
        forall|i: int| 0 <= i < s.len() ==> #[trigger] items_view(s)[i] == json_view(s[i]),
    decreases s.len(),
{
    if s.len() > 0 {
        let t = s.subrange(1, s.len() as int);
        lemma_items_view_len(t);
        assert forall|i: int| 0 <= i < s.len() implies #[trigger] items_view(s)[i] == json_view(s[i]) by {
            if i > 0 {
                assert(items_view(s)[i] == items_view(t)[i - 1]);
                assert(t[i - 1] == s[i]);
            }
        }
    }
}

/// The view of the entries of an object has one entry per entry, in order.
pub proof fn lemma_entries_view(s: Seq<(String, JsonValue)>)
    ensures
        entries_view(s).len() == s.len(),
        forall|i: int|
            0 <= i < s.len() ==> #[trigger] entries_view(s)[i] == (s[i].0@, json_view(s[i].1)),
    decreases s.len(),
{
    if s.len() > 0 {
        let t = s.subrange(1, s.len() as int);
        lemma_entries_view(t);
        assert forall|i: int| 0 <= i < s.len() implies #[trigger] entries_view(s)[i] == (
            s[i].0@,
            json_view(s[i].1),
        ) by {
            if i > 0 {
                assert(entries_view(s)[i] == entries_view(t)[i - 1]);
                assert(t[i - 1] == s[i]);
            }
        }
    }
}

/// Two entry sequences that agree entry by entry have the same view.
pub proof fn lemma_entries_view_ext(a: Seq<(String, JsonValue)>, b: Seq<(Seq<char>, Json)>)
    requires
        a.len() == b.len(),
        forall|i: int| 0 <= i < a.len() ==> (a[i].0@, json_view(a[i].1)) == #[trigger] b[i],
    ensures
        entries_view(a) == b,
{
    lemma_entries_view(a);
    assert(entries_view(a) =~= b);
}

/// Two value sequences that agree element by element have the same view.
pub proof fn lemma_items_view_ext(a: Seq<JsonValue>, b: Seq<Json>)
    requires
        a.len() == b.len(),
        forall|i: int| 0 <= i < a.len() ==> json_view(a[i]) == #[trigger] b[i],
    ensures
        items_view(a) == b,
{
    lemma_items_view_len(a);
    assert(items_view(a) =~= b);
}

impl JsonNumber {
    /// A copy of this number.
    pub fn copy(&self) -> (r: JsonNumber)
        ensures
            number_view(r) == number_view(*self),
    {
        match self {
            JsonNumber::PosInt(u) => JsonNumber::PosInt(*u),
            JsonNumber::NegInt(i) => JsonNumber::NegInt(*i),
            JsonNumber::Float(s) => JsonNumber::Float(s.clone()),
        }
    }
}

impl JsonValue {
    /// A string value.
    pub fn string(s: &str) -> (r: JsonValue)
        ensures
            r@ == Json::Str(s@),
    {
        JsonValue::Str(owned(s))
    }

    /// A non-negative integer value.
    pub fn unsigned(u: u64) -> (r: JsonValue)
        ensures
            r@ == Json::Number(NumberView::PosInt(u)),
    {
        JsonValue::Number(JsonNumber::PosInt(u))
    }

    /// A copy of this value.
    pub fn deep_copy(&self) -> (r: JsonValue)
        ensures
            r@ == self@,
        decreases self,
    {
        match self {
            JsonValue::Null => JsonValue::Null,
            JsonValue::Bool(b) => JsonValue::Bool(*b),
            JsonValue::Number(n) => JsonValue::Number(n.copy()),
            JsonValue::Str(s) => JsonValue::Str(s.clone()),
            JsonValue::Array(items) => {
                let mut out: Vec<JsonValue> = Vec::new();
                let n = items.len();
                let mut i: usize = 0;
                while i < n
                    invariant
                        n == items@.len(),
                        0 <= i <= n,
                        out@.len() == i,
                        *self == JsonValue::Array(*items),
                        forall|k: int| 0 <= k < i ==> json_view(#[trigger] out@[k]) == json_view(items@[k]),
                    decreases n - i,
                {
                    proof {
                        assert(decreases_to!(*self => self->Array_0));
                        assert(decreases_to!(*items => items[i as int]));
                    }
                    let c = items[i].deep_copy();
                    out.push(c);
                    i = i + 1;
                }
                proof {
                    lemma_items_view_len(items@);
                    lemma_items_view_ext(out@, items_view(items@));
                }
                JsonValue::Array(out)
            },
            JsonValue::Object(entries) => {
                let mut out: Vec<(String, JsonValue)> = Vec::new();
                let n = entries.len();
                let mut i: usize = 0;
                while i < n
                    invariant
                        n == entries@.len(),
                        0 <= i <= n,
                        out@.len() == i,
                        forall|k: int|
                            0 <= k < i ==> (#[trigger] out@[k]).0@ == entries@[k].0@ && json_view(out@[k].1)
                                == json_view(entries@[k].1),
                        *self == JsonValue::Object(*entries),
                    decreases n - i,
                {
                    proof {
                        assert(decreases_to!(*self => self->Object_0));
                        assert(decreases_to!(*entries => entries[i as int]));
                        assert(decreases_to!(entries[i as int] => entries[i as int].1));
                    }
                    let c = (entries[i].0.clone(), entries[i].1.deep_copy());
                    out.push(c);
                    i = i + 1;
                }
                proof {
                    lemma_entries_view(entries@);
                    lemma_entries_view_ext(out@, entries_view(entries@));
                }
                JsonValue::Object(out)
            },
        }
    }

    /// The member `key` of an object; nothing for another value.
    pub fn get(&self, key: &str) -> (r: Option<&JsonValue>)
        ensures
            match r {
                Some(v) => self@.get(key@) == Some(v@),
                None => self@.get(key@) is None,
            },
    {
        match self {
            JsonValue::Object(entries) => {
                let n = entries.len();
                let mut i: usize = 0;
                proof {
                    lemma_entries_view(entries@);
                    assert(entries_view(entries@).subrange(0, n as int) =~= entries_view(entries@));
                }
                while i < n
                    invariant
                        n == entries@.len(),
                        entries_view(entries@).len() == n,
                        forall|k: int|
                            0 <= k < n ==> #[trigger] entries_view(entries@)[k] == (
                                entries@[k].0@,
                                json_view(entries@[k].1),
                            ),
                        0 <= i <= n,
                        *self == JsonValue::Object(*entries),
                        entries_get(entries_view(entries@), key@) == entries_get(
                            entries_view(entries@).subrange(i as int, n as int),
                            key@,
                        ),
                    decreases n - i,
                {
                    let ghost ev = entries_view(entries@);
                    assert(ev.subrange(i as int, n as int).drop_first() =~= ev.subrange(i + 1, n as int));
                    if str_eq(entries[i].0.as_str(), key) {
                        assert(ev.subrange(i as int, n as int)[0] == ev[i as int]);
                        return Some(&entries[i].1);
                    }
                    i = i + 1;
                }
                None
            },
            _ => None,
        }
    }

    /// The text of a string value.
    pub fn as_str(&self) -> (r: Option<&str>)
        ensures
            match r {
                Some(s) => self@.as_str() == Some(s@),
                None => self@.as_str() is None,
            },
    {
        match self {
            JsonValue::Str(s) => Some(s.as_str()),
            _ => None,
        }
    }

    /// The value of a non-negative integer.
    pub fn as_u64(&self) -> (r: Option<u64>)
        ensures
            r == self@.as_u64(),
    {
        match self {
            JsonValue::Number(JsonNumber::PosInt(u)) => Some(*u),
            _ => None,
        }
    }

    /// The value of a boolean.
    pub fn as_bool(&self) -> (r: Option<bool>)
        ensures
            r == self@.as_bool(),
    {
        match self {
            JsonValue::Bool(b) => Some(*b),
            _ => None,
        }
    }

    /// The items of an array.
    pub fn as_array(&self) -> (r: Option<&Vec<JsonValue>>)
        ensures
            match r {
                Some(items) => self@ == Json::Array(items_view(items@)),
                None => !(self@ is Array),
            },
    {
        match self {
            JsonValue::Array(items) => Some(items),
            _ => None,
        }
    }

    /// Whether this value is `null`.
    pub fn is_null(&self) -> (r: bool)
        ensures
            r == (self@ == Json::Null),
    {
        match self {
            JsonValue::Null => true,
            _ => false,
        }
    }
}

/// Appending an entry appends its view.
pub proof fn lemma_entries_view_push(s: Seq<(String, JsonValue)>, x: (String, JsonValue))
    ensures
        entries_view(s.push(x)) == entries_view(s).push((x.0@, json_view(x.1))),
{
    lemma_entries_view(s);
    lemma_entries_view(s.push(x));
    assert(entries_view(s.push(x)) =~= entries_view(s).push((x.0@, json_view(x.1))));
}

/// Looking up a key after an entry was appended.
pub proof fn lemma_entries_get_push(e: Seq<(Seq<char>, Json)>, x: (Seq<char>, Json), k: Seq<char>)
    ensures
        entries_get(e.push(x), k) == match entries_get(e, k) {
            Some(v) => Some(v),
            None => if x.0 == k {
                Some(x.1)
            } else {
                None
            },
        },
    decreases e.len(),
{
    if e.len() > 0 {
        assert(e.push(x)[0] == e[0]);
        assert(e.push(x).drop_first() =~= e.drop_first().push(x));
        lemma_entries_get_push(e.drop_first(), x, k);
    } else {
        assert(e.push(x)[0] == x);
        assert(e.push(x).drop_first() =~= Seq::<(Seq<char>, Json)>::empty());
        assert(entries_get(e.push(x).drop_first(), k) is None);
    }
}

/// Appends the entry `(key, v)` to the entries `e`.
pub fn push_entry(e: &mut Vec<(String, JsonValue)>, key: &str, v: JsonValue)
    ensures
        entries_view(final(e)@) == entries_view(old(e)@).push((key@, v@)),
{
    let ghost old_e = e@;
    let item = (owned(key), v);
    proof {
        lemma_entries_view_push(old_e, item);
    }
    e.push(item);
}

/// An object with no entries yet, to be filled by `push_entry`.
pub fn new_entries() -> (e: Vec<(String, JsonValue)>)
    ensures
        entries_view(e@) == Seq::<(Seq<char>, Json)>::empty(),
{
    let e: Vec<(String, JsonValue)> = Vec::new();
    assert(entries_view(e@) =~= Seq::<(Seq<char>, Json)>::empty());
    e
}

/// The object of entries `e`.
pub fn object(e: Vec<(String, JsonValue)>) -> (r: JsonValue)
    ensures
        r@ == Json::Object(entries_view(e@)),
{
    JsonValue::Object(e)
}

/// Appending a value appends its view.
pub proof fn lemma_items_view_push(s: Seq<JsonValue>, x: JsonValue)
    ensures
        items_view(s.push(x)) == items_view(s).push(json_view(x)),
{
    lemma_items_view_len(s);
    lemma_items_view_len(s.push(x));
    assert(items_view(s.push(x)) =~= items_view(s).push(json_view(x)));
}

/// An array with no items yet, to be filled by `push_item`.
pub fn new_items() -> (e: Vec<JsonValue>)
    ensures
        items_view(e@) == Seq::<Json>::empty(),
{
    let e: Vec<JsonValue> = Vec::new();
    assert(items_view(e@) =~= Seq::<Json>::empty());
    e
}

/// Appends the value `v` to the items `e`.
pub fn push_item(e: &mut Vec<JsonValue>, v: JsonValue)
    ensures
        items_view(final(e)@) == items_view(old(e)@).push(v@),
{
    proof {
        lemma_items_view_push(e@, v);
    }
    e.push(v);
}

/// The array of items `e`.
pub fn array(e: Vec<JsonValue>) -> (r: JsonValue)
    ensures
        r@ == Json::Array(items_view(e@)),
{
    JsonValue::Array(e)
}

/// The member `key` of `v`, copied, or `null` when it is absent.
pub fn member_copy(v: &JsonValue, key: &str) -> (r: JsonValue)
    ensures
        r@ == v@.member(key@),
{
    match v.get(key) {
        Some(m) => m.deep_copy(),
        None => JsonValue::Null,
    }
}

/// The member `key` of `v` as a string.
pub fn str_member<'a>(v: &'a JsonValue, key: &str) -> (r: Option<&'a str>)
    ensures
        match r {
            Some(s) => v@.str_member(key@) == Some(s@),
            None => v@.str_member(key@) is None,
        },
{
    match v.get(key) {
        Some(m) => m.as_str(),
        None => None,
    }
}

/// The member `key` of `v` as a non-negative integer.
pub fn u64_member(v: &JsonValue, key: &str) -> (r: Option<u64>)
    ensures
        r == v@.u64_member(key@),
{
    match v.get(key) {
        Some(m) => m.as_u64(),
        None => None,
    }
}

/// The member `key` of `v` as a boolean.
pub fn bool_member(v: &JsonValue, key: &str) -> (r: Option<bool>)
    ensures
        r == v@.bool_member(key@),
{
    match v.get(key) {
        Some(m) => m.as_bool(),
        None => None,
    }
}

/// The string `s`, or `null` when it is `None`.
pub open spec fn str_or_null(s: Option<Seq<char>>) -> Json {
    match s {
        Some(t) => Json::Str(t),
        None => Json::Null,
    }
}

#[verifier::external_type_specification]
#[verifier::external_body]
pub struct ExSerdeJsonValue(Value);

/// What `serde_json::from_str::<serde_json::Value>` gives for `text`, in the
/// view of this library's model: the document, or the text of the error.
pub uninterp spec fn parse_json_spec(text: Seq<char>) -> Result<Json, Seq<char>>;

/// The compact JSON text that `serde_json` writes for `v` (`Value`'s `Display`).
pub uninterp spec fn json_text_spec(v: Json) -> Seq<char>;

/// Converts a `serde_json::Value` into the model, variant for variant; object
/// entries come in the map's iteration order. This is the conversion part of
/// `parse_json_text`, kept apart because it recurses; no verified function
/// calls it, and its outcome is covered by the contract of `parse_json_text`.
#[verifier::external_body]
fn from_serde(v: Value) -> JsonValue {
    match v {
        Value::Null => JsonValue::Null,
        Value::Bool(b) => JsonValue::Bool(b),
        Value::Number(n) => JsonValue::Number(match (n.as_u64(), n.as_i64()) {
            (Some(u), _) => JsonNumber::PosInt(u),
            (None, Some(i)) => JsonNumber::NegInt(i),
            (None, None) => JsonNumber::Float(n.to_string()),
        }),
        Value::String(s) => JsonValue::Str(s),
        Value::Array(a) => JsonValue::Array(a.into_iter().map(from_serde).collect()),
        Value::Object(m) => JsonValue::Object(m.into_iter().map(|(k, x)| (k, from_serde(x))).collect()),
    }
}

/// Converts the model into a `serde_json::Value`, variant for variant; a float
/// is read back from the decimal text that `serde_json` wrote for it. This is
/// the conversion part of `json_text`, kept apart because it recurses; no
/// verified function calls it, and its outcome is covered by the contract of
/// `json_text`.
#[verifier::external_body]
fn to_serde(v: &JsonValue) -> Value {
    match v {
        JsonValue::Null => Value::Null,
        JsonValue::Bool(b) => Value::Bool(*b),
        JsonValue::Number(JsonNumber::PosInt(u)) => Value::from(*u),
        JsonValue::Number(JsonNumber::NegInt(i)) => Value::from(*i),
        JsonValue::Number(JsonNumber::Float(t)) => t.parse::<Number>().map(Value::Number).unwrap_or(Value::Null),
        JsonValue::Str(s) => Value::String(s.clone()),
        JsonValue::Array(a) => Value::Array(a.iter().map(to_serde).collect()),
        JsonValue::Object(e) => Value::Object(e.iter().map(|(k, x)| (k.clone(), to_serde(x))).collect()),
    }
}

/// Parses JSON text with `serde_json::from_str::<serde_json::Value>`.
/// The contract claims that the outcome is `parse_json_spec` of the text: the
/// document in the library's model, or the `Display` text of the error.
#[verifier::external_body]
pub(crate) fn parse_json_text(text: &str) -> (r: Result<JsonValue, String>)
    ensures
        match r {
            Ok(v) => parse_json_spec(text@) == Ok::<Json, Seq<char>>(v@),
            Err(e) => parse_json_spec(text@) == Err::<Json, Seq<char>>(e@),
        },
{
    match serde_json::from_str::<Value>(text) {
        Ok(v) => Ok(from_serde(v)),
        Err(e) => Err(e.to_string()),
    }
}

/// Writes `v` as compact JSON text with `serde_json::Value`'s `Display`.
/// The contract claims that the text is `json_text_spec` of the value's view.
#[verifier::external_body]
pub(crate) fn json_text(v: &JsonValue) -> (r: String)
    ensures
        r@ == json_text_spec(v@),
{
    to_serde(v).to_string()
}

} // verus!
