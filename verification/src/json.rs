use vstd::prelude::*;
use crate::text::{owned, str_eq};

verus! {

/// A JSON number as read from a request: the views the protocol reads of it.
#[derive(Clone, Debug, PartialEq, Eq)]
pub struct JsonNumber {
    /// The value when it is a non-negative integer that fits `u64`.
    pub as_u64: Option<u64>,
    /// The value when it is an integer that fits `i64`.
    pub as_i64: Option<i64>,
    /// The bit pattern of the value converted to single precision.
    pub f32_bits: u32,
    /// The number's canonical JSON text.
    pub text: String,
}

/// A JSON value.
///
/// Objects keep their members in order with distinct keys. Numbers read from
/// a request are `Number`; numbers the server writes are `UInt`, `Int` and
/// `Float32` (single precision, by bit pattern). `Text` is a JSON string whose
/// characters are the compact JSON text of the inner value.
#[derive(Debug, PartialEq, Eq)]
pub enum JsonValue {
    Null,
    Bool(bool),
    Number(JsonNumber),
    UInt(u64),
    Int(i64),
    Float32(u32),
    String(String),
    Array(Vec<JsonValue>),
    Object(Vec<(String, JsonValue)>),
    Text(Box<JsonValue>),
}

/// The mathematical content of a JSON value: sequences in place of vectors,
/// character sequences in place of strings.
pub enum JsonTree {
    Null,
    Bool(bool),
    Number(Option<u64>, Option<i64>, u32, Seq<char>),
    UInt(u64),
    Int(i64),
    Float32(u32),
    Str(Seq<char>),
    Array(Seq<JsonTree>),
    Object(Seq<(Seq<char>, JsonTree)>),
    Text(Box<JsonTree>),
}

pub open spec fn tree(v: JsonValue) -> JsonTree
    decreases v, 1nat,
{
    match v {
        JsonValue::Null => JsonTree::Null,
        JsonValue::Bool(b) => JsonTree::Bool(b),
        JsonValue::Number(n) => JsonTree::Number(n.as_u64, n.as_i64, n.f32_bits, n.text@),
        JsonValue::UInt(u) => JsonTree::UInt(u),
        JsonValue::Int(i) => JsonTree::Int(i),
        JsonValue::Float32(b) => JsonTree::Float32(b),
        JsonValue::String(s) => JsonTree::Str(s@),
        JsonValue::Array(a) => {
            proof {
                assert(decreases_to!(v => a));
                assert(decreases_to!(a => a@));
            }
            JsonTree::Array(trees(a@))
        },
        JsonValue::Object(m) => {
            proof {
                assert(decreases_to!(v => m));
                assert(decreases_to!(m => m@));
            }
            JsonTree::Object(member_trees(m@))
        },
        JsonValue::Text(b) => JsonTree::Text(Box::new(tree(*b))),
    }
}

pub open spec fn trees(s: Seq<JsonValue>) -> Seq<JsonTree>
    decreases s, 0nat,
{
    if s.len() == 0 {
        Seq::empty()
    } else {
        trees(s.drop_last()).push(tree(s.last()))
    }
}

pub open spec fn member_trees(s: Seq<(String, JsonValue)>) -> Seq<(Seq<char>, JsonTree)>
    decreases s, 0nat,
{
    if s.len() == 0 {
        Seq::empty()
    } else {
        proof {
            assert(decreases_to!(s => s[s.len() - 1]));
            assert(decreases_to!(s[s.len() - 1] => s[s.len() - 1].1));
        }
        member_trees(s.drop_last()).push((s.last().0@, tree(s.last().1)))
    }
}

/// The member of an object with the given key, if the value is an object that has one.
pub open spec fn member(members: Seq<(String, JsonValue)>, key: Seq<char>) -> Option<JsonValue>
    decreases members.len(),
{
    if members.len() == 0 {
        None
    } else if members[0].0@ == key {
        Some(members[0].1)
    } else {
        member(members.drop_first(), key)
    }
}

pub open spec fn json_get(v: JsonValue, key: Seq<char>) -> Option<JsonValue> {
    match v {
        JsonValue::Object(members) => member(members@, key),
        _ => None,
    }
}

pub open spec fn json_as_str(v: JsonValue) -> Option<Seq<char>> {
    match v {
        JsonValue::String(s) => Some(s@),
        _ => None,
    }
}

pub open spec fn json_string(v: JsonValue) -> Option<String> {
    match v {
        JsonValue::String(s) => Some(s),
        _ => None,
    }
}

pub open spec fn json_as_u64(v: JsonValue) -> Option<u64> {
    match v {
        JsonValue::Number(n) => n.as_u64,
        JsonValue::UInt(u) => Some(u),
        JsonValue::Int(i) => if i >= 0 { Some(i as u64) } else { None },
        _ => None,
    }
}

pub open spec fn json_as_bool(v: JsonValue) -> Option<bool> {
    match v {
        JsonValue::Bool(b) => Some(b),
        _ => None,
    }
}

pub open spec fn json_is_object(v: JsonValue) -> bool {
    v is Object
}

pub open spec fn json_is_number(v: JsonValue) -> bool {
    v is Number || v is UInt || v is Int || v is Float32
}

impl JsonValue {
    /// The member with the given key of an object; `None` for a missing key or a non-object.
    pub fn get(&self, key: &str) -> (r: Option<&JsonValue>)
        ensures
            r matches Some(v) ==> json_get(*self, key@) == Some(*v),
            r is None ==> json_get(*self, key@) is None,
    {
        match self {
            JsonValue::Object(members) => {
                let mut i: usize = 0;
                assert(members@.skip(0) =~= members@);
                while i < members.len()
                    invariant
                        *self == JsonValue::Object(*members),
                        i <= members@.len(),
                        member(members@, key@) == member(members@.skip(i as int), key@),
                    decreases members@.len() - i,
                {
                    assert(members@.skip(i as int)[0] == members@[i as int]);
                    if str_eq(members[i].0.as_str(), key) {
                        return Some(&members[i].1);
                    }
                    assert(members@.skip(i as int).drop_first() =~= members@.skip(i + 1));
                    i += 1;
                }
                None
            },
            _ => None,
        }
    }

    pub fn as_str(&self) -> (r: Option<&str>)
        ensures
            r matches Some(s) ==> json_as_str(*self) == Some(s@),
            r is None ==> json_as_str(*self) is None,
    {
        match self {
            JsonValue::String(s) => Some(s.as_str()),
            _ => None,
        }
    }

    /// The string of a string value.
    pub fn as_string(&self) -> (r: Option<&String>)
        ensures
            r matches Some(s) ==> json_string(*self) == Some(*s),
            r is None ==> json_string(*self) is None,
    {
        match self {
            JsonValue::String(s) => Some(s),
            _ => None,
        }
    }

    pub fn as_u64(&self) -> (r: Option<u64>)
        ensures
            r == json_as_u64(*self),
    {
        match self {
            JsonValue::Number(n) => n.as_u64,
            JsonValue::UInt(u) => Some(*u),
            JsonValue::Int(i) => if *i >= 0 { Some(*i as u64) } else { None },
            _ => None,
        }
    }

    pub fn as_bool(&self) -> (r: Option<bool>)
        ensures
            r == json_as_bool(*self),
    {
        match self {
            JsonValue::Bool(b) => Some(*b),
            _ => None,
        }
    }

    pub fn as_array(&self) -> (r: Option<&Vec<JsonValue>>)
        ensures
            r matches Some(a) ==> *self == JsonValue::Array(*a),
            r is None ==> !(*self is Array),
    {
        match self {
            JsonValue::Array(a) => Some(a),
            _ => None,
        }
    }

    pub fn is_object(&self) -> (r: bool)
        ensures
            r == json_is_object(*self),
    {
        match self {
            JsonValue::Object(_) => true,
            _ => false,
        }
    }

    pub fn is_number(&self) -> (r: bool)
        ensures
            r == json_is_number(*self),
    {
        match self {
            JsonValue::Number(_) | JsonValue::UInt(_) | JsonValue::Int(_) | JsonValue::Float32(_) => true,
            _ => false,
        }
    }

    /// A deep copy, with the same content.
    pub fn duplicate(&self) -> (r: JsonValue)
        ensures
            tree(r) == tree(*self),
    {
        crate::json_text::duplicate_value(self)
    }

    /// A string value.
    pub fn str(s: &str) -> (r: JsonValue)
        ensures
            r matches JsonValue::String(t) && t@ == s@,
    {
        JsonValue::String(owned(s))
    }
}

/// Builds objects member by member.
pub struct ObjectBuilder {
    pub members: Vec<(String, JsonValue)>,
}

impl ObjectBuilder {
    /// The members added so far, as trees.
    pub open spec fn entries(&self) -> Seq<(Seq<char>, JsonTree)> {
        member_trees(self.members@)
    }

    pub fn new() -> (r: Self)
        ensures
            r.entries() == Seq::<(Seq<char>, JsonTree)>::empty(),
    {
        ObjectBuilder { members: Vec::new() }
    }

    /// Appends a member; keys are distinct by construction at each call site.
    pub fn put(&mut self, key: &str, value: JsonValue)
        ensures
            final(self).entries() == old(self).entries().push((key@, tree(value))),
    {
        let ghost before = self.members@;
        self.members.push((owned(key), value));
        assert(self.members@.drop_last() =~= before);
    }

    pub fn build(self) -> (r: JsonValue)
        ensures
            tree(r) == JsonTree::Object(self.entries()),
    {
        JsonValue::Object(self.members)
    }
}

/// Appends a value to an array under construction.
pub fn push_value(items: &mut Vec<JsonValue>, value: JsonValue)
    ensures
        trees(final(items)@) == trees(old(items)@).push(tree(value)),
{
    let ghost before = items@;
    items.push(value);
    assert(items@.drop_last() =~= before);
}

pub fn array(items: Vec<JsonValue>) -> (r: JsonValue)
    ensures
        tree(r) == JsonTree::Array(trees(items@)),
{
    JsonValue::Array(items)
}

/// Maps each item to JSON with `f`, whose results `g` describes.
pub fn map_array<T, F: Fn(&T) -> JsonValue>(items: &Vec<T>, f: F, Ghost(g): Ghost<spec_fn(T) -> JsonTree>) -> (r: JsonValue)
    requires
        forall|x: &T| #[trigger] f.requires((x,)),
        forall|x: &T, v: JsonValue| f.ensures((x,), v) ==> tree(v) == g(*x),
    ensures
        tree(r) == JsonTree::Array(items@.map_values(g)),
{
    let mut out: Vec<JsonValue> = Vec::new();
    let mut i: usize = 0;
    while i < items.len()
        invariant
            i <= items@.len(),
            forall|x: &T| #[trigger] f.requires((x,)),
            forall|x: &T, v: JsonValue| f.ensures((x,), v) ==> tree(v) == g(*x),
            trees(out@) == items@.take(i as int).map_values(g),
        decreases items@.len() - i,
    {
        let v = f(&items[i]);
        push_value(&mut out, v);
        assert(items@.take(i + 1).map_values(g) =~= items@.take(i as int).map_values(g).push(g(items@[i as int])));
        i += 1;
    }
    assert(items@.take(i as int) =~= items@);
    array(out)
}

pub open spec fn str_tree(s: Seq<char>) -> JsonTree {
    JsonTree::Str(s)
}

pub open spec fn opt_str_tree(o: Option<String>) -> JsonTree {
    match o {
        Some(s) => JsonTree::Str(s@),
        None => JsonTree::Null,
    }
}

pub fn string_value(s: &str) -> (r: JsonValue)
    ensures
        tree(r) == JsonTree::Str(s@),
{
    JsonValue::String(owned(s))
}

pub fn opt_string_value(o: &Option<String>) -> (r: JsonValue)
    ensures
        tree(r) == opt_str_tree(*o),
{
    match o {
        Some(s) => JsonValue::String(s.clone()),
        None => JsonValue::Null,
    }
}

pub open spec fn opt_u64_tree(o: Option<u64>) -> JsonTree {
    match o {
        Some(u) => JsonTree::UInt(u),
        None => JsonTree::Null,
    }
}

pub fn opt_u64_value(o: Option<u64>) -> (r: JsonValue)
    ensures
        tree(r) == opt_u64_tree(o),
{
    match o {
        Some(u) => JsonValue::UInt(u),
        None => JsonValue::Null,
    }
}

/// A list of strings as a JSON array.
pub open spec fn strings_tree(s: Seq<String>) -> JsonTree {
    JsonTree::Array(s.map_values(|x: String| JsonTree::Str(x@)))
}

pub fn strings_value(s: &Vec<String>) -> (r: JsonValue)
    ensures
        tree(r) == strings_tree(s@),
{
    let mut items: Vec<JsonValue> = Vec::new();
    let mut i: usize = 0;
    while i < s.len()
        invariant
            i <= s@.len(),
            trees(items@) == s@.take(i as int).map_values(|x: String| JsonTree::Str(x@)),
        decreases s@.len() - i,
    {
        push_value(&mut items, JsonValue::String(s[i].clone()));
        assert(s@.take(i + 1).map_values(|x: String| JsonTree::Str(x@)) =~= s@.take(i as int).map_values(|x: String| JsonTree::Str(x@)).push(JsonTree::Str(s@[i as int]@)));
        i += 1;
    }
    assert(s@.take(i as int) =~= s@);
    array(items)
}

} // verus!
