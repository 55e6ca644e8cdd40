//! A plain model of JSON documents.
//!
//! The score endpoint and the identity endpoint both answer with JSON. The
//! text is parsed by serde_json; its tree is converted, node for node, into
//! `JsonVal`, a tree of plain values that the verified shape checks work
//! on. A number is kept as what it yields as `u64` and as `i64`; this
//! library never reads a number any other way.

use vstd::prelude::*;

verus! {

/// A JSON number, as the two integer readings this library uses. A reading
/// is absent when the number does not fit it (a fraction, an exponent, a
/// negative for `u64`, an overflow).
pub struct JsonNum {
    pub as_u64: Option<u64>,
    pub as_i64: Option<i64>,
}

/// A JSON document as a tree of plain values. Object members keep the
/// parser's key order and carry each key once.
pub enum JsonVal {
    Null,
    Bool(bool),
    Num(JsonNum),
    Str(String),
    Arr(Vec<JsonVal>),
    Obj(Vec<(String, JsonVal)>),
}

#[verifier::external_type_specification]
#[verifier::external_body]
pub struct ExValue(serde_json::Value);

/// What a JSON text denotes: `None` when serde_json rejects the text, else
/// the converted tree. The parse of a text depends on the text alone.
pub uninterp spec fn json_doc(s: Seq<char>) -> Option<JsonVal>;

/// Relies on serde_json::from_str::<serde_json::Value>: whether a text is
/// valid JSON, and which document it denotes, are functions of the text
/// alone.
#[verifier::external_body]
pub fn parse_json_text(s: &str) -> (r: Option<JsonVal>)
    ensures
        r == json_doc(s@),
{
    serde_json::from_str::<serde_json::Value>(s).ok().map(to_json_val)
}

/// The conversion used by `parse_json_text`: maps serde_json's tree onto
/// `JsonVal`, node for node.
#[verifier::external_body]
fn to_json_val(v: serde_json::Value) -> JsonVal {
    match v {
        serde_json::Value::Null => JsonVal::Null,
        serde_json::Value::Bool(b) => JsonVal::Bool(b),
        serde_json::Value::Number(n) => JsonVal::Num(JsonNum {
            as_u64: n.as_u64(),
            as_i64: n.as_i64(),
        }),
        serde_json::Value::String(s) => JsonVal::Str(s),
        serde_json::Value::Array(a) => JsonVal::Arr(a.into_iter().map(to_json_val).collect()),
        serde_json::Value::Object(m) => JsonVal::Obj(
            m.into_iter().map(|(k, v)| (k, to_json_val(v))).collect(),
        ),
    }
}

/// The value of the first member of `members` whose key reads `key`.
pub open spec fn spec_member(members: Seq<(String, JsonVal)>, key: Seq<char>) -> Option<JsonVal>
    decreases members.len(),
{
    if members.len() == 0 {
        None
    } else if members[0].0@ == key {
        Some(members[0].1)
    } else {
        spec_member(members.skip(1), key)
    }
}

/// Looks a key up among an object's members.
pub fn member<'a>(members: &'a Vec<(String, JsonVal)>, key: &String) -> (r: Option<&'a JsonVal>)
    ensures
        match r {
            Some(v) => spec_member(members@, key@) == Some(*v),
            None => spec_member(members@, key@) is None,
        },
{
    let n = members.len();
    let mut i: usize = 0;
    proof {
        assert(members@.skip(0) =~= members@);
    }
    while i < n
        invariant
            0 <= i <= n == members@.len(),
            spec_member(members@, key@) == spec_member(members@.skip(i as int), key@),
        decreases n - i,
    {
        proof {
            assert(members@.skip(i as int)[0] == members@[i as int]);
            assert(members@.skip(i as int).skip(1) =~= members@.skip(i + 1));
        }
        if members[i].0.eq(key) {
            return Some(&members[i].1);
        }
        i = i + 1;
    }
    proof {
        assert(members@.skip(n as int) =~= Seq::<(String, JsonVal)>::empty());
    }
    None
}

} // verus!
