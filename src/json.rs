//! An untyped JSON document as plain values, and typed access to its members.

use vstd::prelude::*;

verus! {

/// A JSON number, told apart the way schema checks need it.
#[derive(Debug, Clone, PartialEq, Eq)]
pub enum JsonNumber {
    /// An integer in `0..=u64::MAX`.
    Unsigned(u64),
    /// A negative integer.
    Negative(i64),
    /// A number with a fraction or an exponent; its value is not kept.
    Fractional,
}

/// An untyped JSON value.
#[derive(Debug, PartialEq, Eq)]
pub enum JsonValue {
    Null,
    Bool(bool),
    Number(JsonNumber),
    Str(String),
    Array(Vec<JsonValue>),
    /// Members in document order.
    Object(Vec<(String, JsonValue)>),
}

/// The value of the first member named `key`.
pub open spec fn entry_value(entries: Seq<(String, JsonValue)>, key: Seq<char>) -> Option<JsonValue>
    decreases entries.len(),
{
    if entries.len() == 0 {
        None
    } else if entries[0].0@ == key {
        Some(entries[0].1)
    } else {
        entry_value(entries.drop_first(), key)
    }
}

/// The member `key` of `v`, when `v` is an object that has one.
pub open spec fn member(v: Option<JsonValue>, key: Seq<char>) -> Option<JsonValue> {
    match v {
        Some(JsonValue::Object(entries)) => entry_value(entries@, key),
        _ => None,
    }
}

pub open spec fn is_object(v: Option<JsonValue>) -> bool {
    v matches Some(JsonValue::Object(_))
}

pub open spec fn str_of(v: Option<JsonValue>) -> Option<Seq<char>> {
    match v {
        Some(JsonValue::Str(s)) => Some(s@),
        _ => None,
    }
}

pub open spec fn u64_of(v: Option<JsonValue>) -> Option<u64> {
    match v {
        Some(JsonValue::Number(JsonNumber::Unsigned(n))) => Some(n),
        _ => None,
    }
}

pub open spec fn bool_of(v: Option<JsonValue>) -> Option<bool> {
    match v {
        Some(JsonValue::Bool(b)) => Some(b),
        _ => None,
    }
}

pub open spec fn is_str(v: JsonValue) -> bool {
    v is Str
}

pub open spec fn str_payload(v: JsonValue) -> Seq<char> {
    match v {
        JsonValue::Str(s) => s@,
        _ => Seq::empty(),
    }
}

/// The strings of an array whose items are all strings.
pub open spec fn strings_of(v: Option<JsonValue>) -> Option<Seq<Seq<char>>> {
    match v {
        Some(JsonValue::Array(items)) => {
            if forall|i: int| 0 <= i < items@.len() ==> is_str(#[trigger] items@[i]) {
                Some(items@.map_values(|x: JsonValue| str_payload(x)))
            } else {
                None
            }
        },
        _ => None,
    }
}

pub(crate) fn str_eq(a: &str, b: &str) -> (r: bool)
    ensures
        r == (a@ == b@),
{
    let n = a.unicode_len();
    if n != b.unicode_len() {
        return false;
    }
    let mut i: usize = 0;
    while i < n
        invariant
            n == a@.len(),
            n == b@.len(),
            i <= n,
            forall|j: int| 0 <= j < i ==> a@[j] == b@[j],
        decreases n - i,
    {
        if a.get_char(i) != b.get_char(i) {
            return false;
        }
        i = i + 1;
    }
    assert(a@ =~= b@);
    true
}

impl JsonValue {
    /// The member `key` of this value, when it is an object that has one; the
    /// first such member when the name repeats.
    pub fn get(&self, key: &str) -> (r: Option<&JsonValue>)
        ensures
            match r {
                Some(x) => member(Some(*self), key@) == Some(*x),
                None => member(Some(*self), key@) is None,
            },
    {
        match self {
            JsonValue::Object(entries) => {
                let mut i: usize = 0;
                assert(entries@.subrange(0, entries@.len() as int) =~= entries@);
                while i < entries.len()
                    invariant
                        *self == JsonValue::Object(*entries),
                        i <= entries@.len(),
                        entry_value(entries@, key@) == entry_value(
                            entries@.subrange(i as int, entries@.len() as int),
                            key@,
                        ),
                    decreases entries@.len() - i,
                {
                    let ghost rest = entries@.subrange(i as int, entries@.len() as int);
                    assert(rest.drop_first() =~= entries@.subrange(i + 1, entries@.len() as int));
                    assert(rest[0] == entries@[i as int]);
                    if str_eq(entries[i].0.as_str(), key) {
                        return Some(&entries[i].1);
                    }
                    i = i + 1;
                }
                None
            },
            _ => None,
        }
    }

    pub fn as_str(&self) -> (r: Option<&String>)
        ensures
            match r {
                Some(s) => str_of(Some(*self)) == Some(s@),
                None => str_of(Some(*self)) is None,
            },
    {
        match self {
            JsonValue::Str(s) => Some(s),
            _ => None,
        }
    }

    pub fn as_u64(&self) -> (r: Option<u64>)
        ensures
            r == u64_of(Some(*self)),
    {
        match self {
            JsonValue::Number(JsonNumber::Unsigned(n)) => Some(*n),
            _ => None,
        }
    }

    pub fn as_bool(&self) -> (r: Option<bool>)
        ensures
            r == bool_of(Some(*self)),
    {
        match self {
            JsonValue::Bool(b) => Some(*b),
            _ => None,
        }
    }

    pub fn is_object(&self) -> (r: bool)
        ensures
            r == is_object(Some(*self)),
    {
        match self {
            JsonValue::Object(_) => true,
            _ => false,
        }
    }

    pub fn as_array(&self) -> (r: Option<&Vec<JsonValue>>)
        ensures
            match r {
                Some(a) => *self == JsonValue::Array(*a),
                None => !(*self is Array),
            },
    {
        match self {
            JsonValue::Array(a) => Some(a),
            _ => None,
        }
    }

    /// The strings of this value, when it is an array of strings only.
    pub fn as_strings(&self) -> (r: Option<Vec<String>>)
        ensures
            match r {
                Some(v) => strings_of(Some(*self)) == Some(v@.map_values(|s: String| s@)),
                None => strings_of(Some(*self)) is None,
            },
    {
        match self {
            JsonValue::Array(items) => {
                let mut out: Vec<String> = Vec::new();
                let mut i: usize = 0;
                while i < items.len()
                    invariant
                        *self == JsonValue::Array(*items),
                        i <= items@.len(),
                        out@.len() == i,
                        forall|j: int| 0 <= j < i ==> is_str(#[trigger] items@[j]),
                        forall|j: int| 0 <= j < i ==> #[trigger] out@[j]@ == str_payload(items@[j]),
                    decreases items@.len() - i,
                {
                    match &items[i] {
                        JsonValue::Str(s) => {
                            out.push(s.clone());
                        },
                        _ => {
                            assert(!is_str(items@[i as int]));
                            return None;
                        },
                    }
                    i = i + 1;
                }
                assert(out@.map_values(|s: String| s@) =~= items@.map_values(
                    |x: JsonValue| str_payload(x),
                ));
                Some(out)
            },
            _ => None,
        }
    }
}

} // verus!
