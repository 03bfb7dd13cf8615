//! The computational core of the child-subnet listing command: the request
//! parameters it sends to the agent's own server, and the lossless decode of
//! the summaries that come back. Every stake and supply figure travels as a
//! base-10 decimal string and is decoded into the arbitrary-precision amount.

use vstd::prelude::*;
use vstd::string::StringExecFns;

use crate::amount::TokenAmount;
use crate::amount::is_canonical_dec_text;
use crate::amount::text_digits;
use crate::errors::RpcError;
use crate::json::JsonValue;
use crate::json::lookup_field;
use crate::json::get_field;
use crate::wire::epoch_shape;
use crate::wire::epoch_of;
use crate::wire::is_str;
use crate::wire::is_str_shape;
use crate::wire::str_of;
use crate::wire::read_epoch;

verus! {

/// The parameters of the child-subnet listing request: the gateway address to
/// query and the subnet whose children are asked for, keyed as the server's
/// dialect casts them.
pub open spec fn list_subnets_params_shape(
    v: JsonValue,
    gateway: Seq<char>,
    subnet: Seq<char>,
) -> bool {
    &&& v matches JsonValue::Object(fs)
    &&& fs@.len() == 2
    &&& fs@[0].0@ == "gateway_address"@ && is_str(fs@[0].1, gateway)
    &&& fs@[1].0@ == "subnet_id"@ && is_str(fs@[1].1, subnet)
}

/// Builds the child-subnet listing parameters.
pub fn list_subnets_params(gateway_address: &str, subnet: &str) -> (r: JsonValue)
    ensures
        list_subnets_params_shape(r, gateway_address@, subnet@),
{
    let mut fs: Vec<(String, JsonValue)> = Vec::new();
    fs.push((String::from_str("gateway_address"), JsonValue::Str(gateway_address.to_owned())));
    fs.push((String::from_str("subnet_id"), JsonValue::Str(subnet.to_owned())));
    JsonValue::Object(fs)
}

/// One child subnet as the agent's server reports it: its path text, its
/// collateral, its circulating supply, and its status.
#[derive(Debug, Clone, PartialEq, Eq)]
pub struct SubnetSummary {
    pub id: String,
    pub collateral: TokenAmount,
    pub circ_supply: TokenAmount,
    pub status: i64,
}

/// One summary entry has its expected shape: a textual `id`, decimal `stake`
/// and `circ_supply` figures, and a numeric `status`.
pub open spec fn summary_ok(v: JsonValue) -> bool {
    &&& v matches JsonValue::Object(fs)
    &&& lookup_field(fs@, "id"@) matches Some(iv) && is_str_shape(iv)
    &&& lookup_field(fs@, "stake"@) matches Some(sv) && is_str_shape(sv) && is_canonical_dec_text(
        str_of(sv),
    )
    &&& lookup_field(fs@, "circ_supply"@) matches Some(cv) && is_str_shape(cv)
        && is_canonical_dec_text(str_of(cv))
    &&& lookup_field(fs@, "status"@) matches Some(tv) && epoch_shape(tv)
}

/// One decoded summary against its wire form.
pub open spec fn summary_rel(v: JsonValue, s: SubnetSummary) -> bool {
    &&& v matches JsonValue::Object(fs)
    &&& lookup_field(fs@, "id"@) matches Some(iv) && s.id@ == str_of(iv)
    &&& lookup_field(fs@, "stake"@) matches Some(sv) && s.collateral@ == text_digits(str_of(sv))
    &&& lookup_field(fs@, "circ_supply"@) matches Some(cv) && s.circ_supply@ == text_digits(
        str_of(cv),
    )
    &&& lookup_field(fs@, "status"@) matches Some(tv) && s.status == epoch_of(tv)
}

/// Decodes one summary entry; fails exactly when the entry does not have the
/// expected shape, so a stake beyond machine-word range is decoded losslessly
/// rather than truncated.
pub fn decode_subnet_summary(v: &JsonValue, context: &str) -> (r: Result<SubnetSummary, RpcError>)
    ensures
        r is Ok <==> summary_ok(*v),
        r matches Ok(s) ==> summary_rel(*v, s) && s.collateral.well_formed()
            && s.circ_supply.well_formed(),
        r matches Err(e) ==> e matches RpcError::Decode(m) && m@ == context@,
{
    match v {
        JsonValue::Object(fs) => {
            let id = match get_field(fs, "id") {
                Some(JsonValue::Str(t)) => t.clone(),
                _ => {
                    return Err(RpcError::Decode(context.to_owned()));
                },
            };
            let collateral = match get_field(fs, "stake") {
                Some(JsonValue::Str(t)) => {
                    match TokenAmount::decode(t.as_str()) {
                        Some(a) => a,
                        None => {
                            return Err(RpcError::Decode(context.to_owned()));
                        },
                    }
                },
                _ => {
                    return Err(RpcError::Decode(context.to_owned()));
                },
            };
            let circ_supply = match get_field(fs, "circ_supply") {
                Some(JsonValue::Str(t)) => {
                    match TokenAmount::decode(t.as_str()) {
                        Some(a) => a,
                        None => {
                            return Err(RpcError::Decode(context.to_owned()));
                        },
                    }
                },
                _ => {
                    return Err(RpcError::Decode(context.to_owned()));
                },
            };
            let status = match get_field(fs, "status") {
                Some(tv) => read_epoch(tv, context)?,
                None => {
                    return Err(RpcError::Decode(context.to_owned()));
                },
            };
            Ok(SubnetSummary { id, collateral, circ_supply, status })
        },
        _ => Err(RpcError::Decode(context.to_owned())),
    }
}

/// The full listing has its expected shape: an object keyed by subnet path,
/// every value a well-shaped summary.
pub open spec fn summaries_ok(v: JsonValue) -> bool {
    match v {
        JsonValue::Object(fs) => forall|i: int|
            0 <= i < fs@.len() ==> summary_ok((#[trigger] fs@[i]).1),
        _ => false,
    }
}

/// Decodes the full child-subnet listing, all-or-nothing: one malformed
/// entry fails the whole call.
pub fn decode_list_subnets_response(v: &JsonValue, context: &str) -> (r: Result<
    Vec<SubnetSummary>,
    RpcError,
>)
    ensures
        r is Ok <==> summaries_ok(*v),
        r matches Ok(ss) ==> (v matches JsonValue::Object(fs) && ss@.len() == fs@.len() && forall|
            i: int,
        |
            0 <= i < ss@.len() ==> summary_rel(fs@[i].1, #[trigger] ss@[i])),
        r matches Err(e) ==> e matches RpcError::Decode(m) && m@ == context@,
{
    match v {
        JsonValue::Object(fs) => {
            let mut out: Vec<SubnetSummary> = Vec::new();
            let mut i: usize = 0;
            while i < fs.len()
                invariant
                    *v == JsonValue::Object(*fs),
                    i <= fs@.len(),
                    out@.len() == i as nat,
                    forall|j: int| 0 <= j < i ==> summary_ok((#[trigger] fs@[j]).1),
                    forall|j: int| 0 <= j < i ==> summary_rel(fs@[j].1, #[trigger] out@[j]),
                decreases fs@.len() - i,
            {
                match decode_subnet_summary(&fs[i].1, context) {
                    Ok(s) => {
                        out.push(s);
                    },
                    Err(e) => {
                        proof {
                            if summaries_ok(*v) {
                                let fs2 = (*v)->Object_0;
                                assert(summary_ok(fs2@[i as int].1));
                                assert(false);
                            }
                        }
                        return Err(e);
                    },
                }
                i = i + 1;
            }
            Ok(out)
        },
        _ => Err(RpcError::Decode(context.to_owned())),
    }
}

} // verus!
