//! Exact wire shapes of the remote RPC dialect: spec predicates for the JSON
//! forms, the parameter builders, and the primitive response readers. The
//! shapes and field casing are fixed by the remote dialect; the contracts
//! here pin them exactly.

use vstd::prelude::*;
use vstd::string::StringExecFns;
use vstd::string::StrSliceExecFns;

use crate::errors::RpcError;
use crate::ids::Address;
use crate::ids::Cid;
use crate::ids::SubnetID;
use crate::ids::path_text;
use crate::json::JsonValue;
use crate::json::str_eq;

verus! {

// ------------------------------------------------------------------
// Spec shapes
// ------------------------------------------------------------------

/// The value is a JSON string with exactly this text.
pub open spec fn is_str(v: JsonValue, s: Seq<char>) -> bool {
    v matches JsonValue::Str(t) && t@ == s
}

/// The value is a JSON string.
pub open spec fn is_str_shape(v: JsonValue) -> bool {
    v matches JsonValue::Str(_)
}

/// The text of a JSON string; meaningful only under `is_str_shape`.
pub open spec fn str_of(v: JsonValue) -> Seq<char> {
    match v {
        JsonValue::Str(t) => t@,
        _ => Seq::empty(),
    }
}

/// The tagged-object form of a content identifier: exactly one field, keyed
/// `"/"`, holding the identifier text.
pub open spec fn cid_json(v: JsonValue, c: Seq<char>) -> bool {
    &&& v matches JsonValue::Object(fs)
    &&& fs@.len() == 1
    &&& fs@[0].0@ == "/"@
    &&& is_str(fs@[0].1, c)
}

/// The value has the tagged-object shape of a content identifier.
pub open spec fn cid_json_shape(v: JsonValue) -> bool {
    &&& v matches JsonValue::Object(fs)
    &&& fs@.len() == 1
    &&& fs@[0].0@ == "/"@
    &&& fs@[0].1 matches JsonValue::Str(_)
}

/// The identifier text of a tagged content-identifier object; meaningful only
/// under `cid_json_shape`.
pub open spec fn cid_json_text(v: JsonValue) -> Seq<char> {
    match v {
        JsonValue::Object(fs) => str_of(fs@[0].1),
        _ => Seq::empty(),
    }
}

/// An array of tagged content identifiers, in order.
pub open spec fn cids_json(v: JsonValue, cs: Seq<Seq<char>>) -> bool {
    &&& v matches JsonValue::Array(xs)
    &&& xs@.len() == cs.len()
    &&& forall|i: int| 0 <= i < cs.len() ==> cid_json(#[trigger] xs@[i], cs[i])
}

/// The path-string form of a subnet identifier.
pub open spec fn subnet_json(v: JsonValue, id: Seq<Seq<char>>) -> bool {
    is_str(v, path_text(id))
}

// ------------------------------------------------------------------
// Builders
// ------------------------------------------------------------------

/// Builds the tagged-object form of a content identifier.
pub fn cid_to_json(c: &Cid) -> (r: JsonValue)
    ensures
        cid_json(r, c@),
{
    let mut fields: Vec<(String, JsonValue)> = Vec::new();
    fields.push((String::from_str("/"), JsonValue::Str(c.as_text().to_owned())));
    JsonValue::Object(fields)
}

/// Builds the one-element array holding a tagged content identifier: the
/// tip-set key form the remote dialect expects.
pub fn tipset_key_json(c: &Cid) -> (r: JsonValue)
    ensures
        r matches JsonValue::Array(xs) && xs@.len() == 1 && cid_json(xs@[0], c@),
{
    let mut xs: Vec<JsonValue> = Vec::new();
    xs.push(cid_to_json(c));
    JsonValue::Array(xs)
}

/// Builds the path-string form of a subnet identifier.
pub fn subnet_to_json(id: &SubnetID) -> (r: JsonValue)
    ensures
        subnet_json(r, id@),
{
    JsonValue::Str(id.to_text())
}

/// Builds the address text value.
pub fn address_to_json(a: &Address) -> (r: JsonValue)
    ensures
        is_str(r, a@),
{
    JsonValue::Str(a.as_text().to_owned())
}

/// Builds a one-element positional parameter array.
pub fn array1(a: JsonValue) -> (r: JsonValue)
    ensures
        r matches JsonValue::Array(xs) && xs@.len() == 1 && xs@[0] == a,
{
    let mut xs: Vec<JsonValue> = Vec::new();
    xs.push(a);
    JsonValue::Array(xs)
}

/// Builds a two-element positional parameter array.
pub fn array2(a: JsonValue, b: JsonValue) -> (r: JsonValue)
    ensures
        r matches JsonValue::Array(xs) && xs@.len() == 2 && xs@[0] == a && xs@[1] == b,
{
    let mut xs: Vec<JsonValue> = Vec::new();
    xs.push(a);
    xs.push(b);
    JsonValue::Array(xs)
}

/// Builds a three-element positional parameter array.
pub fn array3(a: JsonValue, b: JsonValue, c: JsonValue) -> (r: JsonValue)
    ensures
        r matches JsonValue::Array(xs) && xs@.len() == 3 && xs@[0] == a && xs@[1] == b && xs@[2]
            == c,
{
    let mut xs: Vec<JsonValue> = Vec::new();
    xs.push(a);
    xs.push(b);
    xs.push(c);
    JsonValue::Array(xs)
}

/// Builds a four-element positional parameter array.
pub fn array4(a: JsonValue, b: JsonValue, c: JsonValue, d: JsonValue) -> (r: JsonValue)
    ensures
        r matches JsonValue::Array(xs) && xs@.len() == 4 && xs@[0] == a && xs@[1] == b && xs@[2]
            == c && xs@[3] == d,
{
    let mut xs: Vec<JsonValue> = Vec::new();
    xs.push(a);
    xs.push(b);
    xs.push(c);
    xs.push(d);
    JsonValue::Array(xs)
}

/// Builds the empty keyed-object parameter shape.
pub fn empty_object() -> (r: JsonValue)
    ensures
        r matches JsonValue::Object(fs) && fs@.len() == 0,
{
    let fs: Vec<(String, JsonValue)> = Vec::new();
    JsonValue::Object(fs)
}

/// Builds the array of tagged content identifiers for a tip-set list.
pub fn cids_to_json(cs: &Vec<Cid>) -> (r: JsonValue)
    ensures
        cids_json(r, cs.deep_view()),
{
    let mut xs: Vec<JsonValue> = Vec::new();
    let mut i: usize = 0;
    while i < cs.len()
        invariant
            i <= cs@.len(),
            xs@.len() == i as nat,
            forall|j: int| 0 <= j < i ==> cid_json(#[trigger] xs@[j], cs.deep_view()[j]),
        decreases cs@.len() - i,
    {
        xs.push(cid_to_json(&cs[i]));
        i = i + 1;
    }
    JsonValue::Array(xs)
}

// ------------------------------------------------------------------
// Primitive readers
// ------------------------------------------------------------------

/// Reads a JSON string; fails exactly on any other shape, with a decode error
/// carrying the context label.
pub fn read_str(v: &JsonValue, context: &str) -> (r: Result<String, RpcError>)
    ensures
        r is Ok <==> is_str_shape(*v),
        r matches Ok(s) ==> s@ == str_of(*v),
        r matches Err(e) ==> e matches RpcError::Decode(m) && m@ == context@,
{
    match v {
        JsonValue::Str(s) => Ok(s.clone()),
        _ => Err(RpcError::Decode(context.to_owned())),
    }
}

/// Reads an unsigned JSON number; fails exactly on any other shape.
pub fn read_u64(v: &JsonValue, context: &str) -> (r: Result<u64, RpcError>)
    ensures
        r is Ok <==> v matches JsonValue::UInt(_),
        r matches Ok(u) ==> *v == JsonValue::UInt(u),
        r matches Err(e) ==> e matches RpcError::Decode(m) && m@ == context@,
{
    match v {
        JsonValue::UInt(u) => Ok(*u),
        _ => Err(RpcError::Decode(context.to_owned())),
    }
}

/// Reads a signed JSON number (a chain epoch); an unsigned number within the
/// signed range is accepted too, as the remote dialect does not distinguish
/// them. Fails exactly on any other shape.
pub fn read_epoch(v: &JsonValue, context: &str) -> (r: Result<i64, RpcError>)
    ensures
        r is Ok <==> epoch_shape(*v),
        r matches Ok(e) ==> e == epoch_of(*v),
        r matches Err(e) ==> e matches RpcError::Decode(m) && m@ == context@,
{
    match v {
        JsonValue::Int(i) => Ok(*i),
        JsonValue::UInt(u) => {
            if *u <= i64::MAX as u64 {
                Ok(*u as i64)
            } else {
                Err(RpcError::Decode(context.to_owned()))
            }
        },
        _ => Err(RpcError::Decode(context.to_owned())),
    }
}

/// The value is a signed number, or an unsigned number in signed range.
pub open spec fn epoch_shape(v: JsonValue) -> bool {
    ||| v matches JsonValue::Int(_)
    ||| v matches JsonValue::UInt(u) && u <= i64::MAX as u64
}

/// The signed number a value denotes; meaningful only under `epoch_shape`.
pub open spec fn epoch_of(v: JsonValue) -> i64 {
    match v {
        JsonValue::Int(i) => i,
        JsonValue::UInt(u) => u as i64,
        _ => 0,
    }
}

/// Reads a JSON boolean; fails exactly on any other shape.
pub fn read_bool(v: &JsonValue, context: &str) -> (r: Result<bool, RpcError>)
    ensures
        r is Ok <==> v matches JsonValue::Bool(_),
        r matches Ok(b) ==> *v == JsonValue::Bool(b),
        r matches Err(e) ==> e matches RpcError::Decode(m) && m@ == context@,
{
    match v {
        JsonValue::Bool(b) => Ok(*b),
        _ => Err(RpcError::Decode(context.to_owned())),
    }
}

/// Reads a tagged content-identifier object; fails exactly when the value
/// does not have that shape.
pub fn read_cid(v: &JsonValue, context: &str) -> (r: Result<Cid, RpcError>)
    ensures
        r is Ok <==> cid_json_shape(*v),
        r matches Ok(c) ==> c@ == cid_json_text(*v) && cid_json(*v, c@),
        r matches Err(e) ==> e matches RpcError::Decode(m) && m@ == context@,
{
    match v {
        JsonValue::Object(fs) => {
            if fs.len() == 1 && str_eq(fs[0].0.as_str(), "/") {
                match &fs[0].1 {
                    JsonValue::Str(t) => Ok(Cid::new(t.clone())),
                    _ => Err(RpcError::Decode(context.to_owned())),
                }
            } else {
                Err(RpcError::Decode(context.to_owned()))
            }
        },
        _ => Err(RpcError::Decode(context.to_owned())),
    }
}

/// Every element is a JSON string.
pub open spec fn str_array_shape(v: JsonValue) -> bool {
    match v {
        JsonValue::Array(xs) => forall|i: int|
            0 <= i < xs@.len() ==> is_str_shape(#[trigger] xs@[i]),
        _ => false,
    }
}

/// The element texts of an array of JSON strings; meaningful only under
/// `str_array_shape`.
pub open spec fn str_array_texts(v: JsonValue) -> Seq<Seq<char>> {
    match v {
        JsonValue::Array(xs) => xs@.map_values(|x: JsonValue| str_of(x)),
        _ => Seq::empty(),
    }
}

/// Reads an array of JSON strings; fails exactly when the value is not an
/// array or any element is not a string.
pub fn read_str_array(v: &JsonValue, context: &str) -> (r: Result<Vec<String>, RpcError>)
    ensures
        r is Ok <==> str_array_shape(*v),
        r matches Ok(ss) ==> ss.deep_view() == str_array_texts(*v),
        r matches Err(e) ==> e matches RpcError::Decode(m) && m@ == context@,
{
    match v {
        JsonValue::Array(xs) => {
            let mut out: Vec<String> = Vec::new();
            let mut i: usize = 0;
            while i < xs.len()
                invariant
                    *v == JsonValue::Array(*xs),
                    i <= xs@.len(),
                    out.deep_view().len() == i as nat,
                    forall|j: int|
                        #![trigger xs@[j]]
                        0 <= j < i ==> is_str_shape(xs@[j]) && out.deep_view()[j] == str_of(xs@[j]),
                decreases xs@.len() - i,
            {
                match &xs[i] {
                    JsonValue::Str(t) => {
                        let ghost old_deep = out.deep_view();
                        out.push(t.clone());
                        proof {
                            assert(out.deep_view() =~= old_deep.push(t@));
                        }
                    },
                    _ => {
                        proof {
                            if str_array_shape(*v) {
                                let xs2 = (*v)->Array_0;
                                assert(is_str_shape(xs2@[i as int]));
                                assert(false);
                            }
                        }
                        return Err(RpcError::Decode(context.to_owned()));
                    },
                }
                i = i + 1;
            }
            proof {
                assert(out.deep_view() =~= str_array_texts(*v));
            }
            Ok(out)
        },
        _ => Err(RpcError::Decode(context.to_owned())),
    }
}

} // verus!
