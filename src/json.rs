use vstd::prelude::*;

verus! {

/// A schema-less JSON document, as carried in configuration and metadata
/// blobs.
///
/// Numbers keep their JSON literal text, so no precision is lost in the
/// library. An object keeps its entries in order.
#[derive(Debug)]
pub enum JsonValue {
    Null,
    Bool(bool),
    Number(String),
    Text(String),
    Array(Vec<JsonValue>),
    Object(Vec<(String, JsonValue)>),
}

impl JsonValue {
    /// The value is the string `t`.
    pub open spec fn is_text(&self, t: Seq<char>) -> bool {
        self matches JsonValue::Text(s) && s@ == t
    }

    /// The value is the number written `t`.
    pub open spec fn is_number(&self, t: Seq<char>) -> bool {
        self matches JsonValue::Number(s) && s@ == t
    }

    /// The value is the boolean `b`.
    pub open spec fn is_bool(&self, b: bool) -> bool {
        self matches JsonValue::Bool(x) && x == b
    }

    /// The value is an object without entries: `{}`.
    pub open spec fn is_empty_object(&self) -> bool {
        self matches JsonValue::Object(e) && e@.len() == 0
    }

    /// The value is an object with exactly `n` entries.
    pub open spec fn is_object_of_len(&self, n: nat) -> bool {
        self matches JsonValue::Object(e) && e@.len() == n
    }

    /// The entries of an object; none for any other value.
    pub open spec fn entries(&self) -> Seq<(String, JsonValue)> {
        match self {
            JsonValue::Object(e) => e@,
            _ => Seq::empty(),
        }
    }

    /// The value is an array whose items are the strings `items`, in order.
    pub open spec fn is_text_array(&self, items: Seq<Seq<char>>) -> bool {
        &&& self matches JsonValue::Array(a)
        &&& a@.len() == items.len()
        &&& forall|i: int| 0 <= i < items.len() ==> (#[trigger] a@[i]).is_text(items[i])
    }

    /// The `i`-th entry of this object has key `key`.
    pub open spec fn key_at(&self, i: int, key: Seq<char>) -> bool {
        0 <= i < self.entries().len() && self.entries()[i].0@ == key
    }

    /// The value of the `i`-th entry of this object.
    pub open spec fn value_at(&self, i: int) -> JsonValue {
        self.entries()[i].1
    }

    /// The string `s`.
    pub fn text(s: &str) -> (r: JsonValue)
        ensures
            r.is_text(s@),
    {
        JsonValue::Text(String::from_str(s))
    }

    /// The number whose JSON literal is `s`.
    pub fn number(s: &str) -> (r: JsonValue)
        ensures
            r.is_number(s@),
    {
        JsonValue::Number(String::from_str(s))
    }

    /// The empty object `{}`.
    pub fn empty_object() -> (r: JsonValue)
        ensures
            r.is_empty_object(),
    {
        JsonValue::Object(Vec::new())
    }

    /// An array of the given strings, in order.
    pub fn text_array(items: &Vec<&str>) -> (r: JsonValue)
        ensures
            r.is_text_array(items@.map_values(|s: &str| s@)),
    {
        let mut out: Vec<JsonValue> = Vec::new();
        let mut i: usize = 0;
        while i < items.len()
            invariant
                i <= items@.len(),
                out@.len() == i,
                forall|j: int| 0 <= j < i ==> (#[trigger] out@[j]).is_text(items@[j]@),
            decreases items@.len() - i,
        {
            out.push(JsonValue::text(items[i]));
            i = i + 1;
        }
        let r = JsonValue::Array(out);
        assert(r.is_text_array(items@.map_values(|s: &str| s@)));
        r
    }
}

/// An object entry with key `key` and value `value`.
pub fn entry(key: &str, value: JsonValue) -> (r: (String, JsonValue))
    ensures
        r.0@ == key@,
        r.1 == value,
{
    (String::from_str(key), value)
}

} // verus!
