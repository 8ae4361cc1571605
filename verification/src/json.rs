use vstd::prelude::*;

verus! {

/// A JSON number as a JSON parser reads it: a non-negative integer, a negative
/// integer, or any other number, kept as its text.
#[derive(Debug, PartialEq, Eq)]
pub enum JsonNumber {
    Unsigned(u64),
    Negative(i64),
    Float(String),
}

/// A JSON value. An object keeps its members in order; the value of a key is
/// that of its first member with the key.
#[derive(Debug, PartialEq, Eq)]
pub enum JsonValue {
    Null,
    Bool(bool),
    Number(JsonNumber),
    String(String),
    Array(Vec<JsonValue>),
    Object(Vec<(String, JsonValue)>),
}

/// The value of the first member named `key`.
pub open spec fn member_value(members: Seq<(String, JsonValue)>, key: Seq<char>) -> Option<JsonValue>
    decreases members.len(),
{
    if members.len() == 0 {
        None
    } else if members[0].0@ == key {
        Some(members[0].1)
    } else {
        member_value(members.drop_first(), key)
    }
}

/// An object's member lookup finds the first member with the key, and finds
/// nothing exactly when no member has it.
pub proof fn lemma_member_value_is_first_match(members: Seq<(String, JsonValue)>, key: Seq<char>)
    ensures
        member_value(members, key) is Some <==> exists|i: int|
            0 <= i < members.len() && (#[trigger] members[i]).0@ == key,
        forall|i: int|
            0 <= i < members.len() && (#[trigger] members[i]).0@ == key && (forall|j: int|
                0 <= j < i ==> members[j].0@ != key) ==> member_value(members, key) == Some(
                members[i].1,
            ),
    decreases members.len(),
{
    if members.len() > 0 {
        let rest = members.drop_first();
        lemma_member_value_is_first_match(rest, key);
        if members[0].0@ != key {
            assert forall|i: int|
                0 <= i < members.len() && (#[trigger] members[i]).0@ == key implies i > 0
                && rest[i - 1] == members[i] by {}
            if exists|i: int| 0 <= i < members.len() && (#[trigger] members[i]).0@ == key {
                let i = choose|i: int| 0 <= i < members.len() && (#[trigger] members[i]).0@ == key;
                assert(rest[i - 1] == members[i]);
            }
            if member_value(rest, key) is Some {
                let i = choose|i: int| 0 <= i < rest.len() && (#[trigger] rest[i]).0@ == key;
                assert(members[i + 1] == rest[i]);
            }
            assert forall|i: int|
                0 <= i < members.len() && (#[trigger] members[i]).0@ == key && (forall|j: int|
                    0 <= j < i ==> members[j].0@ != key) implies member_value(members, key)
                == Some(members[i].1) by {
                assert(rest[i - 1] == members[i]);
                assert forall|j: int| 0 <= j < i - 1 implies rest[j].0@ != key by {
                    assert(rest[j] == members[j + 1]);
                }
            }
        } else {
            assert(members[0].0@ == key);
        }
    }
}

/// The value under `key` when `value` is an object that has such a member.
pub open spec fn json_field(value: JsonValue, key: Seq<char>) -> Option<JsonValue> {
    match value {
        JsonValue::Object(members) => member_value(members@, key),
        _ => None,
    }
}

/// The number as a `u64`, when it is a non-negative integer.
pub open spec fn json_u64(value: JsonValue) -> Option<u64> {
    match value {
        JsonValue::Number(JsonNumber::Unsigned(n)) => Some(n),
        _ => None,
    }
}

impl JsonValue {
    /// The value under `key`, as `json_field` states it.
    pub fn get(&self, key: &str) -> (field: Option<&JsonValue>)
        ensures
            match field {
                Some(v) => json_field(*self, key@) == Some(*v),
                None => json_field(*self, key@) is None,
            },
    {
        match self {
            JsonValue::Object(members) => {
                let wanted = String::from_str(key);
                let mut i: usize = 0;
                assert(members@.subrange(0, members@.len() as int) =~= members@);
                while i < members.len()
                    invariant
                        i <= members@.len(),
                        wanted@ == key@,
                        json_field(*self, key@) == member_value(members@, key@),
                        member_value(members@, key@) == member_value(
                            members@.subrange(i as int, members@.len() as int),
                            key@,
                        ),
                    decreases members@.len() - i,
                {
                    let ghost rest = members@.subrange(i as int, members@.len() as int);
                    assert(rest.drop_first() =~= members@.subrange(i + 1, members@.len() as int));
                    assert(rest[0] == members@[i as int]);
                    if members[i].0 == wanted {
                        return Some(&members[i].1);
                    }
                    i = i + 1;
                }
                None
            },
            _ => None,
        }
    }

    /// The number as a `u64`, as `json_u64` states it.
    pub fn as_u64(&self) -> (number: Option<u64>)
        ensures
            number == json_u64(*self),
    {
        match self {
            JsonValue::Number(JsonNumber::Unsigned(n)) => Some(*n),
            _ => None,
        }
    }
}

} // verus!
