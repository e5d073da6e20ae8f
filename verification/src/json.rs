//! JSON documents as the configuration logic reads them.
use serde_json::Value;
use vstd::prelude::*;

verus! {

/// A JSON number: an unsigned integer, a negative integer, or the bits of an
/// IEEE 754 double.
#[derive(Clone, Copy, PartialEq, Eq, Debug)]
pub enum JsonNumber {
    PosInt(u64),
    NegInt(i64),
    Float(u64),
}

/// A JSON document.
#[derive(PartialEq, Eq, Debug)]
pub enum Json {
    Null,
    Bool(bool),
    Number(JsonNumber),
    String(String),
    Array(Vec<Json>),
    Object(Vec<JsonMember>),
}

/// One member of a JSON object.
#[derive(PartialEq, Eq, Debug)]
pub struct JsonMember {
    pub key: String,
    pub value: Json,
}

/// The value of the first member called `key`.
pub open spec fn lookup(members: Seq<JsonMember>, key: Seq<char>) -> Option<Json>
    decreases members.len(),
{
    if members.len() == 0 {
        None
    } else if members[0].key@ == key {
        Some(members[0].value)
    } else {
        lookup(members.drop_first(), key)
    }
}

/// A member is found exactly where there is one of that name, and it is the first of
/// them.
pub proof fn law_lookup_finds_the_first(members: Seq<JsonMember>, key: Seq<char>)
    ensures
        match lookup(members, key) {
            Some(value) => exists|i: int|
                {
                    &&& 0 <= i < members.len()
                    &&& (#[trigger] members[i]).key@ == key
                    &&& members[i].value == value
                    &&& forall|j: int| 0 <= j < i ==> (#[trigger] members[j]).key@ != key
                },
            None => forall|i: int| 0 <= i < members.len() ==> (#[trigger] members[i]).key@ != key,
        },
    decreases members.len(),
{
    if members.len() > 0 {
        if members[0].key@ != key {
            let rest = members.drop_first();
            law_lookup_finds_the_first(rest, key);
            match lookup(rest, key) {
                Some(value) => {
                    let i = choose|i: int|
                        {
                            &&& 0 <= i < rest.len()
                            &&& (#[trigger] rest[i]).key@ == key
                            &&& rest[i].value == value
                            &&& forall|j: int| 0 <= j < i ==> (#[trigger] rest[j]).key@ != key
                        };
                    assert(members[i + 1] == rest[i]);
                    assert forall|j: int| 0 <= j < i + 1 implies (#[trigger] members[j]).key@
                        != key by {
                        if j > 0 {
                            assert(members[j] == rest[j - 1]);
                        }
                    }
                },
                None => {
                    assert forall|i: int| 0 <= i < members.len() implies (
                    #[trigger] members[i]).key@ != key by {
                        if i > 0 {
                            assert(members[i] == rest[i - 1]);
                        }
                    }
                },
            }
        }
    }
}

/// The members that are not called `key`, in order.
pub open spec fn without(members: Seq<JsonMember>, key: Seq<char>) -> Seq<JsonMember>
    decreases members.len(),
{
    if members.len() == 0 {
        members
    } else if members[0].key@ == key {
        without(members.drop_first(), key)
    } else {
        seq![members[0]] + without(members.drop_first(), key)
    }
}

/// Leaving `key` out, every other member is found as before.
pub proof fn lemma_lookup_without(members: Seq<JsonMember>, left_out: Seq<char>, key: Seq<char>)
    ensures
        key == left_out ==> lookup(without(members, left_out), key) is None,
        key != left_out ==> lookup(without(members, left_out), key) == lookup(members, key),
    decreases members.len(),
{
    if members.len() > 0 {
        let rest = members.drop_first();
        lemma_lookup_without(rest, left_out, key);
        let kept = without(rest, left_out);
        assert((seq![members[0]] + kept).drop_first() =~= kept);
    }
}

/// `lookup` finds the member at `i` when no member before it has its key.
proof fn lemma_lookup_at(members: Seq<JsonMember>, key: Seq<char>, i: int)
    requires
        0 <= i < members.len(),
        members[i].key@ == key,
        forall|j: int| 0 <= j < i ==> (#[trigger] members[j]).key@ != key,
    ensures
        lookup(members, key) == Some(members[i].value),
    decreases i,
{
    if i > 0 {
        let rest = members.drop_first();
        assert(members[0].key@ != key);
        assert forall|j: int| 0 <= j < i - 1 implies (#[trigger] rest[j]).key@ != key by {
            assert(rest[j] == members[j + 1]);
        }
        lemma_lookup_at(rest, key, i - 1);
    }
}

/// `lookup` finds nothing when no member has the key.
proof fn lemma_lookup_none(members: Seq<JsonMember>, key: Seq<char>)
    requires
        forall|j: int| 0 <= j < members.len() ==> (#[trigger] members[j]).key@ != key,
    ensures
        lookup(members, key) == None::<Json>,
    decreases members.len(),
{
    if members.len() > 0 {
        let rest = members.drop_first();
        assert(members[0].key@ != key);
        assert forall|j: int| 0 <= j < rest.len() implies (#[trigger] rest[j]).key@ != key by {
            assert(rest[j] == members[j + 1]);
        }
        lemma_lookup_none(rest, key);
    }
}

/// The value type of `serde_json`.
#[verifier::external_type_specification]
#[verifier::external_body]
pub struct ExValue(serde_json::Value);

/// The document that a `serde_json` value holds.
pub uninterp spec fn value_document(value: Value) -> Json;

/// Reads a `serde_json::Value` through its variants: each becomes the variant
/// of [`Json`] that it is named like, arrays and objects item by item in the
/// order in which `serde_json` iterates them, and a number becomes what its
/// `as_u64`, `as_i64` or `as_f64` gives, in that order. Taken on trust: the
/// document is a function of the value alone, and this is how it is named.
#[verifier::external_body]
pub(crate) fn document(value: &Value) -> (json: Json)
    ensures
        json == value_document(*value),
{
    match value {
        Value::Null => Json::Null,
        Value::Bool(flag) => Json::Bool(*flag),
        Value::Number(number) => Json::Number(match (number.as_u64(), number.as_i64()) {
            (Some(value), _) => JsonNumber::PosInt(value),
            (_, Some(value)) => JsonNumber::NegInt(value),
            _ => JsonNumber::Float(number.as_f64().unwrap_or_default().to_bits()),
        }),
        Value::String(text) => Json::String(text.clone()),
        Value::Array(items) => Json::Array(items.iter().map(document).collect()),
        Value::Object(members) => Json::Object(members.iter().map(member).collect()),
    }
}

/// Reads one member of a `serde_json` object as [`document`] reads its value.
fn member(entry: (&String, &Value)) -> (member: JsonMember)
    ensures
        member.key@ == entry.0@,
        member.value == value_document(*entry.1),
{
    JsonMember { key: entry.0.clone(), value: document(entry.1) }
}

impl Json {
    /// The member called `key`, if this is an object that has one.
    pub open spec fn field(self, key: Seq<char>) -> Option<Json> {
        match self {
            Json::Object(members) => lookup(members@, key),
            _ => None,
        }
    }

    /// The number, if this is an unsigned integer.
    pub open spec fn unsigned(self) -> Option<u64> {
        match self {
            Json::Number(JsonNumber::PosInt(value)) => Some(value),
            _ => None,
        }
    }

    /// The text, if this is a string.
    pub open spec fn text(self) -> Option<Seq<char>> {
        match self {
            Json::String(value) => Some(value@),
            _ => None,
        }
    }

    /// Two documents with the same contents: the same texts, and the same items
    /// and members in the same order.
    pub open spec fn same(self, other: Json) -> bool
        decreases self,
    {
        match (self, other) {
            (Json::Null, Json::Null) => true,
            (Json::Bool(flag), Json::Bool(copy)) => flag == copy,
            (Json::Number(number), Json::Number(copy)) => number == copy,
            (Json::String(text), Json::String(copy)) => text@ == copy@,
            (Json::Array(items), Json::Array(copies)) => {
                &&& items@.len() == copies@.len()
                &&& forall|i: int|
                    0 <= i < items@.len() ==> (#[trigger] items@[i]).same(copies@[i])
            },
            (Json::Object(members), Json::Object(copies)) => {
                &&& members@.len() == copies@.len()
                &&& forall|i: int|
                    0 <= i < members@.len() ==> (#[trigger] members@[i]).key@ == copies@[i].key@
                        && members@[i].value.same(copies@[i].value)
            },
            _ => false,
        }
    }

    /// A copy of the document.
    pub fn copy(&self) -> (copy: Json)
        ensures
            self.same(copy),
        decreases *self,
    {
        match self {
            Json::Null => Json::Null,
            Json::Bool(flag) => Json::Bool(*flag),
            Json::Number(number) => Json::Number(*number),
            Json::String(text) => Json::String(text.clone()),
            Json::Array(items) => {
                let mut copies: Vec<Json> = Vec::new();
                let mut i: usize = 0;
                while i < items.len()
                    invariant
                        i <= items.len(),
                        *self == Json::Array(*items),
                        copies@.len() == i,
                        forall|j: int| 0 <= j < i ==> (#[trigger] items@[j]).same(copies@[j]),
                    decreases items.len() - i,
                {
                    assert(decreases_to!(*self => self->Array_0@[i as int]));
                    copies.push(items[i].copy());
                    i = i + 1;
                }
                Json::Array(copies)
            },
            Json::Object(members) => {
                let mut copies: Vec<JsonMember> = Vec::new();
                let mut i: usize = 0;
                while i < members.len()
                    invariant
                        i <= members.len(),
                        *self == Json::Object(*members),
                        copies@.len() == i,
                        forall|j: int|
                            0 <= j < i ==> (#[trigger] members@[j]).key@ == copies@[j].key@
                                && members@[j].value.same(copies@[j].value),
                    decreases members.len() - i,
                {
                    assert(decreases_to!(*self => self->Object_0@[i as int].value));
                    let value = members[i].value.copy();
                    copies.push(JsonMember { key: members[i].key.clone(), value });
                    i = i + 1;
                }
                Json::Object(copies)
            },
        }
    }

    pub fn get(&self, key: &str) -> (found: Option<&Json>)
        ensures
            found is Some <==> self.field(key@) is Some,
            found is Some ==> self.field(key@) == Some(*found->0),
    {
        match self {
            Json::Object(members) => {
                let wanted = key.to_owned();
                let mut i: usize = 0;
                while i < members.len()
                    invariant
                        i <= members.len(),
                        wanted@ == key@,
                        *self == Json::Object(*members),
                        forall|j: int| 0 <= j < i ==> (#[trigger] members@[j]).key@ != key@,
                    decreases members.len() - i,
                {
                    if members[i].key.eq(&wanted) {
                        proof {
                            lemma_lookup_at(members@, key@, i as int);
                        }
                        return Some(&members[i].value);
                    }
                    i = i + 1;
                }
                proof {
                    lemma_lookup_none(members@, key@);
                }
                None
            },
            _ => None,
        }
    }

    pub fn as_u64(&self) -> (value: Option<u64>)
        ensures
            value == self.unsigned(),
    {
        match self {
            Json::Number(JsonNumber::PosInt(value)) => Some(*value),
            _ => None,
        }
    }

    pub fn as_number(&self) -> (value: Option<JsonNumber>)
        ensures
            match *self {
                Json::Number(number) => value == Some(number),
                _ => value is None,
            },
    {
        match self {
            Json::Number(number) => Some(*number),
            _ => None,
        }
    }

    pub fn as_bool(&self) -> (value: Option<bool>)
        ensures
            match *self {
                Json::Bool(flag) => value == Some(flag),
                _ => value is None,
            },
    {
        match self {
            Json::Bool(flag) => Some(*flag),
            _ => None,
        }
    }

    pub fn as_string(&self) -> (value: Option<&String>)
        ensures
            match *self {
                Json::String(text) => value == Some(&text),
                _ => value is None,
            },
    {
        match self {
            Json::String(text) => Some(text),
            _ => None,
        }
    }

    pub fn as_array(&self) -> (value: Option<&Vec<Json>>)
        ensures
            match *self {
                Json::Array(items) => value == Some(&items),
                _ => value is None,
            },
    {
        match self {
            Json::Array(items) => Some(items),
            _ => None,
        }
    }
}

} // verus!
