//! JSON documents as the log readers see them: a value tree whose numbers, arrays and
//! objects also carry the text `serde_json` prints for them, and the lookups the
//! readers make in it.

use vstd::prelude::*;
use serde_json::Value;
use crate::text::str_eq;

verus! {

/// A JSON value.
pub enum JsonValue {
    Null,
    Bool(bool),
    /// A number: its value when it is a whole number that fits in `u64`, and its text.
    Number(Option<u64>, String),
    Str(String),
    /// An array: its items, and its text.
    Array(Vec<JsonValue>, String),
    /// An object: its members by key (each key once), and its text.
    Object(Vec<(String, JsonValue)>, String),
}

/// The mathematical form of a JSON value.
pub enum JsonView {
    Null,
    Bool(bool),
    Number(Option<u64>, Seq<char>),
    Str(Seq<char>),
    Array(Seq<JsonView>, Seq<char>),
    Object(Seq<(Seq<char>, JsonView)>, Seq<char>),
}

impl JsonValue {
    pub open spec fn view_json(&self) -> JsonView
        decreases self,
    {
        match self {
            JsonValue::Null => JsonView::Null,
            JsonValue::Bool(b) => JsonView::Bool(*b),
            JsonValue::Number(n, t) => JsonView::Number(*n, t@),
            JsonValue::Str(s) => JsonView::Str(s@),
            JsonValue::Array(items, t) => JsonView::Array(
                Seq::new(
                    items@.len(),
                    |i: int|
                        if 0 <= i < items@.len() {
                            items@[i].view_json()
                        } else {
                            JsonView::Null
                        },
                ),
                t@,
            ),
            JsonValue::Object(members, t) => JsonView::Object(
                Seq::new(
                    members@.len(),
                    |i: int|
                        if 0 <= i < members@.len() {
                            (members@[i].0@, members@[i].1.view_json())
                        } else {
                            (Seq::<char>::empty(), JsonView::Null)
                        },
                ),
                t@,
            ),
        }
    }
}

pub open spec fn opt_json_view(o: Option<JsonValue>) -> Option<JsonView> {
    match o {
        Some(v) => Some(v.view_json()),
        None => None,
    }
}

/// The value that `serde_json` reads from a text, `None` when the text is not a JSON
/// document.
pub uninterp spec fn json_parse(text: Seq<char>) -> Option<JsonView>;

#[verifier::external_type_specification]
#[verifier::external_body]
pub struct ExJsonValue(Value);

/// Turns a `serde_json` value into a `JsonValue`, one for one; the texts are what
/// `serde_json` prints for each number, array and object.
#[verifier::external_body]
fn from_serde(v: &Value) -> (r: JsonValue) {
    match v {
        Value::Null => JsonValue::Null,
        Value::Bool(b) => JsonValue::Bool(*b),
        Value::Number(n) => JsonValue::Number(n.as_u64(), n.to_string()),
        Value::String(s) => JsonValue::Str(s.clone()),
        Value::Array(a) => JsonValue::Array(a.iter().map(from_serde).collect(), v.to_string()),
        Value::Object(m) => JsonValue::Object(
            m.iter().map(|(k, x)| (k.clone(), from_serde(x))).collect(),
            v.to_string(),
        ),
    }
}

/// Calls `serde_json::from_str::<serde_json::Value>` and turns the value into a
/// `JsonValue`; the result is named `json_parse(text)`.
#[verifier::external_body]
pub(crate) fn parse_json(text: &str) -> (r: Option<JsonValue>)
    ensures
        opt_json_view(r) == json_parse(text@),
{
    match serde_json::from_str::<Value>(text) {
        Ok(v) => Some(from_serde(&v)),
        Err(_) => None,
    }
}

/// The value of the first member with this key.
pub open spec fn spec_member(m: Seq<(Seq<char>, JsonView)>, key: Seq<char>) -> Option<JsonView>
    decreases m.len(),
{
    if m.len() == 0 {
        None
    } else if m[0].0 == key {
        Some(m[0].1)
    } else {
        spec_member(m.drop_first(), key)
    }
}

/// The member `key` of an object; nothing for any other value.
pub open spec fn spec_get(j: JsonView, key: Seq<char>) -> Option<JsonView> {
    match j {
        JsonView::Object(m, _) => spec_member(m, key),
        _ => None,
    }
}

/// A value as text: a string as it is, `null` as nothing, any other value as printed.
pub open spec fn spec_display(j: JsonView) -> Option<Seq<char>> {
    match j {
        JsonView::Null => None,
        JsonView::Bool(b) => Some(if b { "true"@ } else { "false"@ }),
        JsonView::Number(_, t) => Some(t),
        JsonView::Str(s) => Some(s),
        JsonView::Array(_, t) => Some(t),
        JsonView::Object(_, t) => Some(t),
    }
}

pub open spec fn spec_as_str(j: JsonView) -> Option<Seq<char>> {
    match j {
        JsonView::Str(s) => Some(s),
        _ => None,
    }
}

pub open spec fn spec_as_u64(j: JsonView) -> Option<u64> {
    match j {
        JsonView::Number(n, _) => n,
        _ => None,
    }
}

pub open spec fn spec_as_bool(j: JsonView) -> Option<bool> {
    match j {
        JsonView::Bool(b) => Some(b),
        _ => None,
    }
}

proof fn lemma_member_at(m: Seq<(Seq<char>, JsonView)>, key: Seq<char>, i: int)
    requires
        0 <= i < m.len(),
        m[i].0 == key,
        forall|j: int| 0 <= j < i ==> m[j].0 != key,
    ensures
        spec_member(m, key) == Some(m[i].1),
    decreases i,
{
    if i > 0 {
        lemma_member_at(m.drop_first(), key, i - 1);
    }
}

proof fn lemma_member_absent(m: Seq<(Seq<char>, JsonView)>, key: Seq<char>)
    requires
        forall|j: int| 0 <= j < m.len() ==> m[j].0 != key,
    ensures
        spec_member(m, key) is None,
    decreases m.len(),
{
    if m.len() > 0 {
        lemma_member_absent(m.drop_first(), key);
    }
}

impl JsonValue {
    /// The member `key` of an object; `None` for a missing key or another value.
    pub fn get(&self, key: &str) -> (r: Option<&JsonValue>)
        ensures
            opt_json_view(match r { Some(x) => Some(*x), None => None }) == spec_get(self.view_json(), key@),
    {
        match self {
            JsonValue::Object(members, t) => {
                let ghost m = Seq::new(
                    members@.len(),
                    |j: int|
                        if 0 <= j < members@.len() {
                            (members@[j].0@, members@[j].1.view_json())
                        } else {
                            (Seq::<char>::empty(), JsonView::Null)
                        },
                );
                assert(self.view_json()->Object_0 =~= m);
                let mut i: usize = 0;
                while i < members.len()
                    invariant
                        i <= members@.len(),
                        m.len() == members@.len(),
                        spec_get(self.view_json(), key@) == spec_member(m, key@),
                        forall|j: int| 0 <= j < members@.len() ==> (#[trigger] m[j]) == (members@[j].0@, members@[j].1.view_json()),
                        forall|j: int| 0 <= j < i ==> (#[trigger] m[j]).0 != key@,
                    decreases members.len() - i,
                {
                    if str_eq(members[i].0.as_str(), key) {
                        proof {
                            assert(m[i as int] == (members@[i as int].0@, members@[i as int].1.view_json()));
                            lemma_member_at(m, key@, i as int);
                        }
                        return Some(&members[i].1);
                    }
                    proof {
                        assert(m[i as int] == (members@[i as int].0@, members@[i as int].1.view_json()));
                    }
                    i = i + 1;
                }
                proof {
                    lemma_member_absent(m, key@);
                }
                None
            },
            _ => None,
        }
    }

    /// The value as text: a string as it is, `null` as nothing, any other value as
    /// `serde_json` prints it.
    pub fn display(&self) -> (r: Option<String>)
        ensures
            match r {
                Some(s) => spec_display(self.view_json()) == Some(s@),
                None => spec_display(self.view_json()) is None,
            },
    {
        match self {
            JsonValue::Null => None,
            JsonValue::Bool(b) => Some(if *b { "true".to_owned() } else { "false".to_owned() }),
            JsonValue::Number(_, t) => Some(t.clone()),
            JsonValue::Str(s) => Some(s.clone()),
            JsonValue::Array(_, t) => Some(t.clone()),
            JsonValue::Object(_, t) => Some(t.clone()),
        }
    }

    /// The string, if the value is one.
    pub fn as_str(&self) -> (r: Option<String>)
        ensures
            match r {
                Some(s) => spec_as_str(self.view_json()) == Some(s@),
                None => spec_as_str(self.view_json()) is None,
            },
    {
        match self {
            JsonValue::Str(s) => Some(s.clone()),
            _ => None,
        }
    }

    /// The number, if the value is a whole number that fits in `u64`.
    pub fn as_u64(&self) -> (r: Option<u64>)
        ensures
            r == spec_as_u64(self.view_json()),
    {
        match self {
            JsonValue::Number(n, _) => *n,
            _ => None,
        }
    }

    /// The flag, if the value is a boolean.
    pub fn as_bool(&self) -> (r: Option<bool>)
        ensures
            r == spec_as_bool(self.view_json()),
    {
        match self {
            JsonValue::Bool(b) => Some(*b),
            _ => None,
        }
    }

    /// Whether the value is an object.
    pub fn is_object(&self) -> (r: bool)
        ensures
            r == (self.view_json() is Object),
    {
        match self {
            JsonValue::Object(_, _) => true,
            _ => false,
        }
    }
}

} // verus!
