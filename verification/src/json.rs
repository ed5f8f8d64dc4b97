//! A plain JSON tree the verified schema mappers work on.
//!
//! Parsing the wire text into the tree is delegated to `serde_json`; what
//! the parser returns for a given text is named by `json_of`, and every
//! decision taken on the parsed tree is verified code in this crate.
//! Numbers are carried as the decimal text `serde_json` prints for them, so
//! that no floating-point value enters the verified logic.

use vstd::prelude::*;
use vstd::string::StringExecFns;

verus! {

/// One JSON value. Object members keep the order in which the parser hands
/// them out; keys of a parsed object are unique.
pub enum JsonValue {
    Null,
    Bool(bool),
    /// The number's decimal text, as `serde_json` prints it.
    Num(String),
    Str(String),
    Arr(Vec<JsonValue>),
    Obj(Vec<(String, JsonValue)>),
}

/// The tree that parsing a given text yields, or `None` where the text is
/// not one well-formed JSON document.
pub uninterp spec fn json_of(s: Seq<char>) -> Option<JsonValue>;

#[verifier::external_type_specification]
#[verifier::external_body]
pub struct ExValue(serde_json::Value);

/// Carries each variant of `serde_json::Value` over into [`JsonValue`],
/// turning numbers into their decimal text. Only `parse_json` calls it.
#[verifier::external_body]
fn tree_of_value(v: serde_json::Value) -> JsonValue {
    match v {
        serde_json::Value::Null => JsonValue::Null,
        serde_json::Value::Bool(b) => JsonValue::Bool(b),
        serde_json::Value::Number(n) => JsonValue::Num(n.to_string()),
        serde_json::Value::String(s) => JsonValue::Str(s),
        serde_json::Value::Array(a) => JsonValue::Arr(a.into_iter().map(tree_of_value).collect()),
        serde_json::Value::Object(m) => JsonValue::Obj(
            m.into_iter().map(|p| (p.0, tree_of_value(p.1))).collect(),
        ),
    }
}

/// Parses a JSON document.
///
/// Relies on serde_json::from_str::<serde_json::Value>: returns the value
/// tree of one JSON document, and an error on text it does not accept
/// (malformed, trailing data, or nested beyond its recursion limit); the
/// result depends on the input text alone, which is all the contract
/// assumes.
#[verifier::external_body]
pub(crate) fn parse_json(s: &str) -> (r: Option<JsonValue>)
    ensures
        r == json_of(s@),
{
    match serde_json::from_str::<serde_json::Value>(s) {
        Ok(v) => Some(tree_of_value(v)),
        Err(_) => None,
    }
}

/// The value the first member named `key` carries, walking `fields` front
/// to back.
pub open spec fn lookup_field(fields: Seq<(String, JsonValue)>, key: Seq<char>) -> Option<
    JsonValue,
>
    decreases fields.len(),
{
    if fields.len() == 0 {
        None
    } else if fields[0].0@ == key {
        Some(fields[0].1)
    } else {
        lookup_field(fields.drop_first(), key)
    }
}

/// The member named `key` of `v`, where `v` is an object that has one.
pub open spec fn field_of(v: JsonValue, key: Seq<char>) -> Option<JsonValue> {
    match v {
        JsonValue::Obj(fields) => lookup_field(fields@, key),
        _ => None,
    }
}

impl JsonValue {
    /// Looks up the member named `key`; `None` when `self` is not an object
    /// or has no such member.
    pub fn get<'a>(&'a self, key: &str) -> (r: Option<&'a JsonValue>)
        ensures
            match r {
                Some(f) => field_of(*self, key@) == Some(*f),
                None => field_of(*self, key@) is None,
            },
    {
        match self {
            JsonValue::Obj(fields) => {
                let ks = String::from_str(key);
                let n: usize = fields.len();
                let mut i: usize = 0;
                proof {
                    assert(fields@.skip(0) =~= fields@);
                }
                while i < n
                    invariant
                        i <= n,
                        n == fields@.len(),
                        ks@ == key@,
                        *self == JsonValue::Obj(*fields),
                        lookup_field(fields@.skip(i as int), key@) == lookup_field(
                            fields@,
                            key@,
                        ),
                    decreases n - i,
                {
                    if fields[i].0 == ks {
                        proof {
                            let rest = fields@.skip(i as int);
                            assert(rest[0] == fields@[i as int]);
                            assert(lookup_field(rest, key@) == Some(rest[0].1));
                            assert(field_of(*self, key@) == lookup_field(fields@, key@));
                        }
                        return Some(&fields[i].1);
                    }
                    proof {
                        let rest = fields@.skip(i as int);
                        assert(rest[0] == fields@[i as int]);
                        assert(rest.drop_first() =~= fields@.skip(i + 1 as int));
                    }
                    i = i + 1;
                }
                proof {
                    assert(fields@.skip(n as int) =~= Seq::<(String, JsonValue)>::empty());
                }
                None
            },
            _ => None,
        }
    }
}

} // verus!
