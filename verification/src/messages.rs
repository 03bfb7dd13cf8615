//! Domain-typed requests and responses of the facade, each with its exact
//! wire decoder. Collection decoders are all-or-nothing: one corrupted
//! element fails the whole call, so no partial sequence is ever returned.

use vstd::prelude::*;
use vstd::string::StringExecFns;

use crate::amount::TokenAmount;
use crate::amount::digits_to_text;
use crate::amount::is_canonical_dec_text;
use crate::amount::text_digits;
use crate::codecs::base64_decoded;
use crate::codecs::base64_of;
use crate::codecs::base64_decode;
use crate::codecs::cid_text_ok;
use crate::codecs::cid_text_check;
use crate::errors::RpcError;
use crate::ids::Address;
use crate::ids::ChainEpoch;
use crate::ids::Cid;
use crate::ids::SubnetID;
use crate::ids::path_text;
use crate::ids::valid_subnet_text;
use crate::json::JsonValue;
use crate::json::lookup_field;
use crate::json::get_field;
use crate::json::find_field_index;
use crate::payload::Checkpoint;
use crate::payload::CrossMsg;
use crate::wire::cid_json;
use crate::wire::cid_json_shape;
use crate::wire::cid_json_text;
use crate::wire::epoch_shape;
use crate::wire::epoch_of;
use crate::wire::is_str;
use crate::wire::is_str_shape;
use crate::wire::str_of;
use crate::wire::cid_to_json;
use crate::wire::read_cid;
use crate::wire::read_epoch;
use crate::wire::read_str;
use crate::wire::read_str_array;
use crate::wire::read_u64;

verus! {

// ------------------------------------------------------------------
// Mempool push request
// ------------------------------------------------------------------

/// A message to push into the remote mempool. Unset nonce and gas fields are
/// sent as explicit nulls so the remote node auto-populates them.
#[derive(Debug)]
pub struct MpoolPushMessage {
    pub to: Address,
    pub from: Address,
    pub value: TokenAmount,
    pub method: u64,
    pub params: Vec<u8>,
    pub nonce: Option<u64>,
    pub gas_limit: Option<TokenAmount>,
    pub gas_fee_cap: Option<TokenAmount>,
    pub gas_premium: Option<TokenAmount>,
    pub max_fee: Option<TokenAmount>,
    pub cid: Option<Cid>,
}

/// An optional amount fits in one machine word (the numeric form the remote
/// dialect uses for gas and fee fields).
pub open spec fn opt_amount_fits(t: Option<TokenAmount>) -> bool {
    match t {
        Some(a) => a.well_formed() && a.value() <= u64::MAX,
        None => true,
    }
}

/// The JSON form of an optional machine-word amount: the number, or null.
pub open spec fn opt_amount_json(v: JsonValue, t: Option<TokenAmount>) -> bool {
    match t {
        Some(a) => v matches JsonValue::UInt(u) && u as nat == a.value(),
        None => v is Null,
    }
}

/// The JSON form of an optional counter: the number, or null.
pub open spec fn opt_u64_json(v: JsonValue, n: Option<u64>) -> bool {
    match n {
        Some(x) => v == JsonValue::UInt(x),
        None => v is Null,
    }
}

/// The JSON form of an optional content identifier: the tagged object, or null.
pub open spec fn opt_cid_json(v: JsonValue, c: Option<Cid>) -> bool {
    match c {
        Some(cc) => cid_json(v, cc@),
        None => v is Null,
    }
}

/// The message body of the mempool push call: field names, casing and order
/// fixed by the remote dialect.
pub open spec fn mpool_message_json(v: JsonValue, m: MpoolPushMessage) -> bool {
    &&& v matches JsonValue::Object(fs)
    &&& fs@.len() == 11
    &&& fs@[0].0@ == "to"@ && is_str(fs@[0].1, m.to@)
    &&& fs@[1].0@ == "from"@ && is_str(fs@[1].1, m.from@)
    &&& fs@[2].0@ == "value"@ && is_str(fs@[2].1, digits_to_text(m.value@))
    &&& fs@[3].0@ == "method"@ && fs@[3].1 == JsonValue::UInt(m.method)
    &&& fs@[4].0@ == "params"@ && is_str(fs@[4].1, base64_of(m.params@))
    &&& fs@[5].0@ == "nonce"@ && opt_u64_json(fs@[5].1, m.nonce)
    &&& fs@[6].0@ == "gas_limit"@ && opt_amount_json(fs@[6].1, m.gas_limit)
    &&& fs@[7].0@ == "gas_fee_cap"@ && opt_amount_json(fs@[7].1, m.gas_fee_cap)
    &&& fs@[8].0@ == "gas_premium"@ && opt_amount_json(fs@[8].1, m.gas_premium)
    &&& fs@[9].0@ == "cid"@ && opt_cid_json(fs@[9].1, m.cid)
    &&& fs@[10].0@ == "version"@ && fs@[10].1 is Null
}

/// The options object of the mempool push call: the optional max fee.
pub open spec fn mpool_opts_json(v: JsonValue, m: MpoolPushMessage) -> bool {
    &&& v matches JsonValue::Object(fs)
    &&& fs@.len() == 1
    &&& fs@[0].0@ == "max_fee"@ && opt_amount_json(fs@[0].1, m.max_fee)
}

/// The full two-part parameter array of the mempool push call.
pub open spec fn mpool_push_params(v: JsonValue, m: MpoolPushMessage) -> bool {
    &&& v matches JsonValue::Array(parts)
    &&& parts@.len() == 2
    &&& mpool_message_json(parts@[0], m)
    &&& mpool_opts_json(parts@[1], m)
}

/// Builds the JSON form of an optional machine-word amount.
fn opt_amount_to_json(t: &Option<TokenAmount>) -> (r: JsonValue)
    requires
        opt_amount_fits(*t),
    ensures
        opt_amount_json(r, *t),
{
    match t {
        Some(a) => {
            match a.to_u64() {
                Some(x) => JsonValue::UInt(x),
                None => {
                    proof {
                        assert(false);
                    }
                    JsonValue::Null
                },
            }
        },
        None => JsonValue::Null,
    }
}

/// Builds the exact two-part parameter array of the mempool push call.
pub fn mpool_push_params_json(m: &MpoolPushMessage) -> (r: JsonValue)
    requires
        m.value.well_formed(),
        opt_amount_fits(m.gas_limit),
        opt_amount_fits(m.gas_fee_cap),
        opt_amount_fits(m.gas_premium),
        opt_amount_fits(m.max_fee),
    ensures
        mpool_push_params(r, *m),
{
    let mut fs: Vec<(String, JsonValue)> = Vec::new();
    fs.push((String::from_str("to"), JsonValue::Str(m.to.as_text().to_owned())));
    fs.push((String::from_str("from"), JsonValue::Str(m.from.as_text().to_owned())));
    fs.push((String::from_str("value"), JsonValue::Str(m.value.encode())));
    fs.push((String::from_str("method"), JsonValue::UInt(m.method)));
    fs.push((String::from_str("params"), JsonValue::Str(crate::codecs::base64_encode(&m.params))));
    let nonce = match m.nonce {
        Some(n) => JsonValue::UInt(n),
        None => JsonValue::Null,
    };
    fs.push((String::from_str("nonce"), nonce));
    fs.push((String::from_str("gas_limit"), opt_amount_to_json(&m.gas_limit)));
    fs.push((String::from_str("gas_fee_cap"), opt_amount_to_json(&m.gas_fee_cap)));
    fs.push((String::from_str("gas_premium"), opt_amount_to_json(&m.gas_premium)));
    let cid_value = match &m.cid {
        Some(c) => cid_to_json(c),
        None => JsonValue::Null,
    };
    fs.push((String::from_str("cid"), cid_value));
    fs.push((String::from_str("version"), JsonValue::Null));
    let msg = JsonValue::Object(fs);
    let mut ofs: Vec<(String, JsonValue)> = Vec::new();
    ofs.push((String::from_str("max_fee"), opt_amount_to_json(&m.max_fee)));
    let opts = JsonValue::Object(ofs);
    let mut parts: Vec<JsonValue> = Vec::new();
    parts.push(msg);
    parts.push(opts);
    JsonValue::Array(parts)
}

// ------------------------------------------------------------------
// Mempool push response
// ------------------------------------------------------------------

/// The accepted message as the remote mempool reports it: its content
/// identifier and the nonce it was assigned.
#[derive(Debug, Clone, PartialEq, Eq)]
pub struct MpoolPushMessageResponseInner {
    pub cid: Cid,
    pub nonce: u64,
}

/// The response of the mempool push call has its expected shape: a `Message`
/// object carrying the assigned `CID` and `Nonce`.
pub open spec fn mpool_response_ok(v: JsonValue) -> bool {
    &&& v matches JsonValue::Object(fs)
    &&& lookup_field(fs@, "Message"@) matches Some(mv)
    &&& mv matches JsonValue::Object(mfs)
    &&& lookup_field(mfs@, "CID"@) matches Some(cv) && cid_json_shape(cv)
    &&& lookup_field(mfs@, "Nonce"@) matches Some(nv) && nv matches JsonValue::UInt(_)
}

/// The decoded mempool push response against its wire form.
pub open spec fn mpool_response_rel(v: JsonValue, inner: MpoolPushMessageResponseInner) -> bool {
    &&& v matches JsonValue::Object(fs)
    &&& lookup_field(fs@, "Message"@) matches Some(mv)
    &&& mv matches JsonValue::Object(mfs)
    &&& lookup_field(mfs@, "CID"@) matches Some(cv) && inner.cid@ == cid_json_text(cv)
    &&& lookup_field(mfs@, "Nonce"@) matches Some(nv) && nv == JsonValue::UInt(inner.nonce)
}

/// Decodes the mempool push response; fails exactly when the response does
/// not have the expected shape.
pub fn decode_mpool_push_response(v: &JsonValue, context: &str) -> (r: Result<
    MpoolPushMessageResponseInner,
    RpcError,
>)
    ensures
        r is Ok <==> mpool_response_ok(*v),
        r matches Ok(inner) ==> mpool_response_rel(*v, inner),
        r matches Err(e) ==> e matches RpcError::Decode(m) && m@ == context@,
{
    match v {
        JsonValue::Object(fs) => {
            match get_field(fs, "Message") {
                Some(mv) => {
                    match mv {
                        JsonValue::Object(mfs) => {
                            let cv = match get_field(mfs, "CID") {
                                Some(cv) => cv,
                                None => {
                                    return Err(RpcError::Decode(context.to_owned()));
                                },
                            };
                            let cid = read_cid(cv, context)?;
                            let nv = match get_field(mfs, "Nonce") {
                                Some(nv) => nv,
                                None => {
                                    return Err(RpcError::Decode(context.to_owned()));
                                },
                            };
                            let nonce = read_u64(nv, context)?;
                            Ok(MpoolPushMessageResponseInner { cid, nonce })
                        },
                        _ => Err(RpcError::Decode(context.to_owned())),
                    }
                },
                None => Err(RpcError::Decode(context.to_owned())),
            }
        },
        _ => Err(RpcError::Decode(context.to_owned())),
    }
}

// ------------------------------------------------------------------
// State wait response
// ------------------------------------------------------------------

/// The report of an included message: the epoch of the tip set it landed in
/// and the execution receipt's exit code.
#[derive(Debug, Clone, PartialEq, Eq)]
pub struct StateWaitMsgResponse {
    pub height: ChainEpoch,
    pub exit_code: u64,
}

/// The response of the state wait call has its expected shape: null while the
/// message is not yet final, else a `Height` and a `Receipt` with `ExitCode`.
pub open spec fn wait_response_ok(v: JsonValue) -> bool {
    ||| v is Null
    ||| {
        &&& v matches JsonValue::Object(fs)
        &&& lookup_field(fs@, "Height"@) matches Some(hv) && epoch_shape(hv)
        &&& lookup_field(fs@, "Receipt"@) matches Some(rv)
        &&& rv matches JsonValue::Object(rfs)
        &&& lookup_field(rfs@, "ExitCode"@) matches Some(ev) && ev matches JsonValue::UInt(_)
    }
}

/// The decoded state wait response against its wire form: `None` for a null
/// (still pending) response.
pub open spec fn wait_response_rel(v: JsonValue, r: Option<StateWaitMsgResponse>) -> bool {
    match r {
        None => v is Null,
        Some(resp) => {
            &&& v matches JsonValue::Object(fs)
            &&& lookup_field(fs@, "Height"@) matches Some(hv) && resp.height == epoch_of(hv)
            &&& lookup_field(fs@, "Receipt"@) matches Some(rv)
            &&& rv matches JsonValue::Object(rfs)
            &&& lookup_field(rfs@, "ExitCode"@) matches Some(ev) && ev == JsonValue::UInt(
                resp.exit_code,
            )
        },
    }
}

/// Decodes the state wait response; `Ok(None)` is a null response (the
/// message is not yet final), and the call fails exactly when the response
/// has neither that nor the included-message shape.
pub fn decode_wait_response(v: &JsonValue, context: &str) -> (r: Result<
    Option<StateWaitMsgResponse>,
    RpcError,
>)
    ensures
        r is Ok <==> wait_response_ok(*v),
        r matches Ok(o) ==> wait_response_rel(*v, o),
        r matches Err(e) ==> e matches RpcError::Decode(m) && m@ == context@,
{
    match v {
        JsonValue::Null => Ok(None),
        JsonValue::Object(fs) => {
            let hv = match get_field(fs, "Height") {
                Some(hv) => hv,
                None => {
                    return Err(RpcError::Decode(context.to_owned()));
                },
            };
            let height = read_epoch(hv, context)?;
            let rv = match get_field(fs, "Receipt") {
                Some(rv) => rv,
                None => {
                    return Err(RpcError::Decode(context.to_owned()));
                },
            };
            match rv {
                JsonValue::Object(rfs) => {
                    let ev = match get_field(rfs, "ExitCode") {
                        Some(ev) => ev,
                        None => {
                            return Err(RpcError::Decode(context.to_owned()));
                        },
                    };
                    let exit_code = read_u64(ev, context)?;
                    Ok(Some(StateWaitMsgResponse { height, exit_code }))
                },
                _ => Err(RpcError::Decode(context.to_owned())),
            }
        },
        _ => Err(RpcError::Decode(context.to_owned())),
    }
}

// ------------------------------------------------------------------
// Chain head
// ------------------------------------------------------------------

/// A tip set as the chain reports it: its block content identifiers and its
/// epoch.
#[derive(Debug, Clone, PartialEq, Eq)]
pub struct ChainHeadResponse {
    pub cids: Vec<Cid>,
    pub height: ChainEpoch,
}

/// Every element has the tagged content-identifier shape.
pub open spec fn cid_array_shape(v: JsonValue) -> bool {
    match v {
        JsonValue::Array(xs) => forall|i: int|
            0 <= i < xs@.len() ==> cid_json_shape(#[trigger] xs@[i]),
        _ => false,
    }
}

/// The identifier texts of an array of tagged content identifiers;
/// meaningful only under `cid_array_shape`.
pub open spec fn cid_array_texts(v: JsonValue) -> Seq<Seq<char>> {
    match v {
        JsonValue::Array(xs) => xs@.map_values(|x: JsonValue| cid_json_text(x)),
        _ => Seq::empty(),
    }
}

/// Reads an array of tagged content identifiers; fails exactly when the
/// value is not an array or any element lacks the tagged shape.
pub fn read_cid_array(v: &JsonValue, context: &str) -> (r: Result<Vec<Cid>, RpcError>)
    ensures
        r is Ok <==> cid_array_shape(*v),
        r matches Ok(cs) ==> cs.deep_view() == cid_array_texts(*v),
        r matches Err(e) ==> e matches RpcError::Decode(m) && m@ == context@,
{
    match v {
        JsonValue::Array(xs) => {
            let mut out: Vec<Cid> = Vec::new();
            let mut i: usize = 0;
            while i < xs.len()
                invariant
                    *v == JsonValue::Array(*xs),
                    i <= xs@.len(),
                    out.deep_view().len() == i as nat,
                    forall|j: int|
                        #![trigger xs@[j]]
                        0 <= j < i ==> cid_json_shape(xs@[j]) && out.deep_view()[j]
                            == cid_json_text(xs@[j]),
                decreases xs@.len() - i,
            {
                match read_cid(&xs[i], context) {
                    Ok(c) => {
                        let ghost old_deep = out.deep_view();
                        let ghost cv = c@;
                        out.push(c);
                        proof {
                            assert(out.deep_view() =~= old_deep.push(cv));
                        }
                    },
                    Err(e) => {
                        proof {
                            if cid_array_shape(*v) {
                                let xs2 = (*v)->Array_0;
                                assert(cid_json_shape(xs2@[i as int]));
                                assert(false);
                            }
                        }
                        return Err(e);
                    },
                }
                i = i + 1;
            }
            proof {
                assert(out.deep_view() =~= cid_array_texts(*v));
            }
            Ok(out)
        },
        _ => Err(RpcError::Decode(context.to_owned())),
    }
}

/// The chain head response has its expected shape: a `Cids` array of tagged
/// identifiers and a `Height` epoch.
pub open spec fn chain_head_ok(v: JsonValue) -> bool {
    &&& v matches JsonValue::Object(fs)
    &&& lookup_field(fs@, "Cids"@) matches Some(cv) && cid_array_shape(cv)
    &&& lookup_field(fs@, "Height"@) matches Some(hv) && epoch_shape(hv)
}

/// The decoded chain head against its wire form.
pub open spec fn chain_head_rel(v: JsonValue, r: ChainHeadResponse) -> bool {
    &&& v matches JsonValue::Object(fs)
    &&& lookup_field(fs@, "Cids"@) matches Some(cv) && r.cids.deep_view() == cid_array_texts(cv)
    &&& lookup_field(fs@, "Height"@) matches Some(hv) && r.height == epoch_of(hv)
}

/// Decodes a tip set response; fails exactly when the response does not have
/// the expected shape.
pub fn decode_chain_head(v: &JsonValue, context: &str) -> (r: Result<ChainHeadResponse, RpcError>)
    ensures
        r is Ok <==> chain_head_ok(*v),
        r matches Ok(resp) ==> chain_head_rel(*v, resp),
        r matches Err(e) ==> e matches RpcError::Decode(m) && m@ == context@,
{
    match v {
        JsonValue::Object(fs) => {
            let cv = match get_field(fs, "Cids") {
                Some(cv) => cv,
                None => {
                    return Err(RpcError::Decode(context.to_owned()));
                },
            };
            let cids = read_cid_array(cv, context)?;
            let hv = match get_field(fs, "Height") {
                Some(hv) => hv,
                None => {
                    return Err(RpcError::Decode(context.to_owned()));
                },
            };
            let height = read_epoch(hv, context)?;
            Ok(ChainHeadResponse { cids, height })
        },
        _ => Err(RpcError::Decode(context.to_owned())),
    }
}

// ------------------------------------------------------------------
// Binary envelope collections
// ------------------------------------------------------------------

/// A base64 text whose bytes form one well-formed envelope.
pub open spec fn envelope_text_ok(s: Seq<char>) -> bool {
    base64_decoded(s) matches Some(b) && crate::codecs::cbor_envelope_ok(b)
}

/// The envelope bytes of a base64 text; meaningful only when the text is
/// valid base64.
pub open spec fn envelope_bytes(s: Seq<char>) -> Seq<u8> {
    match base64_decoded(s) {
        Some(b) => b,
        None => Seq::empty(),
    }
}

/// Every element is the base64 text of one well-formed envelope.
pub open spec fn envelope_list_ok(v: JsonValue) -> bool {
    match v {
        JsonValue::Array(xs) => forall|i: int|
            0 <= i < xs@.len() ==> is_str_shape(#[trigger] xs@[i]) && envelope_text_ok(
                str_of(xs@[i]),
            ),
        _ => false,
    }
}

/// Decodes one base64-encoded checkpoint envelope response: the call
/// succeeds exactly when the response is the base64 text of one well-formed
/// envelope, and the result carries exactly those envelope bytes.
pub fn decode_checkpoint_envelope(v: &JsonValue, context: &str) -> (r: Result<Checkpoint, RpcError>)
    ensures
        r is Ok <==> (is_str_shape(*v) && envelope_text_ok(str_of(*v))),
        r matches Ok(c) ==> c@ == envelope_bytes(str_of(*v)) && c.well_formed(),
        r matches Err(e) ==> e matches RpcError::Decode(m) && m@ == context@,
{
    let text = read_str(v, context)?;
    match base64_decode(text.as_str()) {
        Some(bytes) => {
            match Checkpoint::from_envelope(bytes) {
                Some(c) => Ok(c),
                None => Err(RpcError::Decode(context.to_owned())),
            }
        },
        None => Err(RpcError::Decode(context.to_owned())),
    }
}

/// Decodes the previous-checkpoint response: a null response means no prior
/// checkpoint exists and yields `None`; any other response must be a tagged
/// content identifier and yields it unchanged.
pub fn decode_prev_checkpoint(v: &JsonValue, context: &str) -> (r: Result<Option<Cid>, RpcError>)
    ensures
        r is Ok <==> (v is Null || cid_json_shape(*v)),
        r matches Ok(o) ==> (o is None <==> v is Null),
        r matches Ok(o) ==> (o matches Some(c) ==> c@ == cid_json_text(*v)),
        r matches Err(e) ==> e matches RpcError::Decode(m) && m@ == context@,
{
    match v {
        JsonValue::Null => Ok(None),
        _ => {
            let c = read_cid(v, context)?;
            Ok(Some(c))
        },
    }
}

/// Decodes the default-address response: the text must be a well-formed chain
/// address, and the result carries exactly that text.
pub fn decode_wallet_default(v: &JsonValue, context: &str) -> (r: Result<Address, RpcError>)
    ensures
        r is Ok <==> (is_str_shape(*v) && crate::codecs::addr_text_ok(str_of(*v))),
        r matches Ok(a) ==> a@ == str_of(*v),
        r matches Err(e) ==> e matches RpcError::Decode(m) && m@ == context@,
{
    let text = read_str(v, context)?;
    if crate::codecs::address_text_check(text.as_str()) {
        Ok(Address::new(text))
    } else {
        Err(RpcError::Decode(context.to_owned()))
    }
}

/// Decodes an array of base64-encoded checkpoint envelopes. One corrupted
/// element fails the whole call: the result is `Ok` exactly when every
/// element is the base64 text of one well-formed envelope.
pub fn decode_checkpoint_list(v: &JsonValue, context: &str) -> (r: Result<Vec<Checkpoint>, RpcError>)
    ensures
        r is Ok <==> envelope_list_ok(*v),
        r matches Ok(cs) ==> (v matches JsonValue::Array(xs) && cs@.len() == xs@.len() && forall|
            i: int,
        |
            0 <= i < cs@.len() ==> (#[trigger] cs@[i])@ == envelope_bytes(str_of(xs@[i]))
                && cs@[i].well_formed()),
        r matches Err(e) ==> e matches RpcError::Decode(m) && m@ == context@,
{
    match v {
        JsonValue::Array(xs) => {
            let mut out: Vec<Checkpoint> = Vec::new();
            let mut i: usize = 0;
            while i < xs.len()
                invariant
                    *v == JsonValue::Array(*xs),
                    i <= xs@.len(),
                    out@.len() == i as nat,
                    forall|j: int|
                        #![trigger xs@[j]]
                        0 <= j < i ==> is_str_shape(xs@[j]) && envelope_text_ok(str_of(xs@[j])),
                    forall|j: int|
                        0 <= j < i ==> (#[trigger] out@[j])@ == envelope_bytes(str_of(xs@[j]))
                            && out@[j].well_formed(),
                decreases xs@.len() - i,
            {
                let elem_ok: Option<Checkpoint> = match &xs[i] {
                    JsonValue::Str(t) => {
                        match base64_decode(t.as_str()) {
                            Some(bytes) => Checkpoint::from_envelope(bytes),
                            None => None,
                        }
                    },
                    _ => None,
                };
                match elem_ok {
                    Some(c) => {
                        out.push(c);
                    },
                    None => {
                        proof {
                            if envelope_list_ok(*v) {
                                let xs2 = (*v)->Array_0;
                                assert(is_str_shape(xs2@[i as int]) && envelope_text_ok(
                                    str_of(xs2@[i as int]),
                                ));
                                assert(false);
                            }
                        }
                        return Err(RpcError::Decode(context.to_owned()));
                    },
                }
                i = i + 1;
            }
            Ok(out)
        },
        _ => Err(RpcError::Decode(context.to_owned())),
    }
}

/// Decodes an array of base64-encoded cross-subnet message envelopes, with
/// the same all-or-nothing policy as the checkpoint list.
pub fn decode_crossmsg_list(v: &JsonValue, context: &str) -> (r: Result<Vec<CrossMsg>, RpcError>)
    ensures
        r is Ok <==> envelope_list_ok(*v),
        r matches Ok(ms) ==> (v matches JsonValue::Array(xs) && ms@.len() == xs@.len() && forall|
            i: int,
        |
            0 <= i < ms@.len() ==> (#[trigger] ms@[i])@ == envelope_bytes(str_of(xs@[i]))
                && ms@[i].well_formed()),
        r matches Err(e) ==> e matches RpcError::Decode(m) && m@ == context@,
{
    match v {
        JsonValue::Array(xs) => {
            let mut out: Vec<CrossMsg> = Vec::new();
            let mut i: usize = 0;
            while i < xs.len()
                invariant
                    *v == JsonValue::Array(*xs),
                    i <= xs@.len(),
                    out@.len() == i as nat,
                    forall|j: int|
                        #![trigger xs@[j]]
                        0 <= j < i ==> is_str_shape(xs@[j]) && envelope_text_ok(str_of(xs@[j])),
                    forall|j: int|
                        0 <= j < i ==> (#[trigger] out@[j])@ == envelope_bytes(str_of(xs@[j]))
                            && out@[j].well_formed(),
                decreases xs@.len() - i,
            {
                let elem_ok: Option<CrossMsg> = match &xs[i] {
                    JsonValue::Str(t) => {
                        match base64_decode(t.as_str()) {
                            Some(bytes) => CrossMsg::from_envelope(bytes),
                            None => None,
                        }
                    },
                    _ => None,
                };
                match elem_ok {
                    Some(m) => {
                        out.push(m);
                    },
                    None => {
                        proof {
                            if envelope_list_ok(*v) {
                                let xs2 = (*v)->Array_0;
                                assert(is_str_shape(xs2@[i as int]) && envelope_text_ok(
                                    str_of(xs2@[i as int]),
                                ));
                                assert(false);
                            }
                        }
                        return Err(RpcError::Decode(context.to_owned()));
                    },
                }
                i = i + 1;
            }
            Ok(out)
        },
        _ => Err(RpcError::Decode(context.to_owned())),
    }
}

// ------------------------------------------------------------------
// Generic state read
// ------------------------------------------------------------------

/// A generic actor state read: the actor's balance, its code identifier, and
/// the state object itself, handed back for the caller's own typed decode.
#[derive(Debug)]
pub struct ReadStateResponse {
    pub balance: TokenAmount,
    pub code: Cid,
    pub state: JsonValue,
}

/// The state read response has its expected shape: a decimal `Balance`, a
/// tagged `Code` identifier, and a `State` value of any shape.
pub open spec fn read_state_ok(v: JsonValue) -> bool {
    &&& v matches JsonValue::Object(fs)
    &&& lookup_field(fs@, "Balance"@) matches Some(bv) && is_str_shape(bv)
        && is_canonical_dec_text(str_of(bv))
    &&& lookup_field(fs@, "Code"@) matches Some(cv) && cid_json_shape(cv)
    &&& lookup_field(fs@, "State"@) is Some
}

/// The decoded state read against its wire form.
pub open spec fn read_state_rel(v: JsonValue, r: ReadStateResponse) -> bool {
    &&& v matches JsonValue::Object(fs)
    &&& lookup_field(fs@, "Balance"@) matches Some(bv) && r.balance@ == text_digits(str_of(bv))
    &&& lookup_field(fs@, "Code"@) matches Some(cv) && r.code@ == cid_json_text(cv)
    &&& lookup_field(fs@, "State"@) == Some(r.state)
}

/// Decodes a state read response; fails exactly when the response does not
/// have the expected shape.
pub fn decode_read_state(v: JsonValue, context: &str) -> (r: Result<ReadStateResponse, RpcError>)
    ensures
        r is Ok <==> read_state_ok(v),
        r matches Ok(resp) ==> read_state_rel(v, resp),
        r matches Err(e) ==> e matches RpcError::Decode(m) && m@ == context@,
{
    match v {
        JsonValue::Object(mut fs) => {
            let ghost fs0 = fs@;
            let balance = match get_field(&fs, "Balance") {
                Some(bv) => {
                    match bv {
                        JsonValue::Str(bt) => {
                            match TokenAmount::decode(bt.as_str()) {
                                Some(t) => t,
                                None => {
                                    return Err(RpcError::Decode(context.to_owned()));
                                },
                            }
                        },
                        _ => {
                            return Err(RpcError::Decode(context.to_owned()));
                        },
                    }
                },
                None => {
                    return Err(RpcError::Decode(context.to_owned()));
                },
            };
            let code = match get_field(&fs, "Code") {
                Some(cv) => read_cid(cv, context)?,
                None => {
                    return Err(RpcError::Decode(context.to_owned()));
                },
            };
            let idx = match find_field_index(&fs, "State") {
                Some(j) => j,
                None => {
                    return Err(RpcError::Decode(context.to_owned()));
                },
            };
            let pair = fs.remove(idx);
            Ok(ReadStateResponse { balance, code, state: pair.1 })
        },
        _ => Err(RpcError::Decode(context.to_owned())),
    }
}

// ------------------------------------------------------------------
// Bridging contract state reads
// ------------------------------------------------------------------

/// The gateway contract's state as the facade reads it: the network it
/// serves and its checkpoint period.
#[derive(Debug, Clone, PartialEq, Eq)]
pub struct IPCReadGatewayStateResponse {
    pub network_name: String,
    pub check_period: ChainEpoch,
}

/// The gateway state response has its expected shape.
pub open spec fn gateway_state_ok(v: JsonValue) -> bool {
    &&& v matches JsonValue::Object(fs)
    &&& lookup_field(fs@, "NetworkName"@) matches Some(nv) && is_str_shape(nv)
    &&& lookup_field(fs@, "CheckPeriod"@) matches Some(pv) && epoch_shape(pv)
}

/// The decoded gateway state against its wire form.
pub open spec fn gateway_state_rel(v: JsonValue, r: IPCReadGatewayStateResponse) -> bool {
    &&& v matches JsonValue::Object(fs)
    &&& lookup_field(fs@, "NetworkName"@) matches Some(nv) && r.network_name@ == str_of(nv)
    &&& lookup_field(fs@, "CheckPeriod"@) matches Some(pv) && r.check_period == epoch_of(pv)
}

/// Decodes a gateway state response; fails exactly when the response does
/// not have the expected shape.
pub fn decode_gateway_state(v: &JsonValue, context: &str) -> (r: Result<
    IPCReadGatewayStateResponse,
    RpcError,
>)
    ensures
        r is Ok <==> gateway_state_ok(*v),
        r matches Ok(resp) ==> gateway_state_rel(*v, resp),
        r matches Err(e) ==> e matches RpcError::Decode(m) && m@ == context@,
{
    match v {
        JsonValue::Object(fs) => {
            let nv = match get_field(fs, "NetworkName") {
                Some(nv) => nv,
                None => {
                    return Err(RpcError::Decode(context.to_owned()));
                },
            };
            let network_name = read_str(nv, context)?;
            let pv = match get_field(fs, "CheckPeriod") {
                Some(pv) => pv,
                None => {
                    return Err(RpcError::Decode(context.to_owned()));
                },
            };
            let check_period = read_epoch(pv, context)?;
            Ok(IPCReadGatewayStateResponse { network_name, check_period })
        },
        _ => Err(RpcError::Decode(context.to_owned())),
    }
}

/// A subnet actor's state as the facade reads it: its checkpoint period and
/// its lifecycle status.
#[derive(Debug, Clone, PartialEq, Eq)]
pub struct IPCReadSubnetActorStateResponse {
    pub check_period: ChainEpoch,
    pub status: i64,
}

/// The subnet actor state response has its expected shape.
pub open spec fn subnet_actor_state_ok(v: JsonValue) -> bool {
    &&& v matches JsonValue::Object(fs)
    &&& lookup_field(fs@, "CheckPeriod"@) matches Some(pv) && epoch_shape(pv)
    &&& lookup_field(fs@, "Status"@) matches Some(sv) && epoch_shape(sv)
}

/// The decoded subnet actor state against its wire form.
pub open spec fn subnet_actor_state_rel(v: JsonValue, r: IPCReadSubnetActorStateResponse) -> bool {
    &&& v matches JsonValue::Object(fs)
    &&& lookup_field(fs@, "CheckPeriod"@) matches Some(pv) && r.check_period == epoch_of(pv)
    &&& lookup_field(fs@, "Status"@) matches Some(sv) && r.status == epoch_of(sv)
}

/// Decodes a subnet actor state response; fails exactly when the response
/// does not have the expected shape.
pub fn decode_subnet_actor_state(v: &JsonValue, context: &str) -> (r: Result<
    IPCReadSubnetActorStateResponse,
    RpcError,
>)
    ensures
        r is Ok <==> subnet_actor_state_ok(*v),
        r matches Ok(resp) ==> subnet_actor_state_rel(*v, resp),
        r matches Err(e) ==> e matches RpcError::Decode(m) && m@ == context@,
{
    match v {
        JsonValue::Object(fs) => {
            let pv = match get_field(fs, "CheckPeriod") {
                Some(pv) => pv,
                None => {
                    return Err(RpcError::Decode(context.to_owned()));
                },
            };
            let check_period = read_epoch(pv, context)?;
            let sv = match get_field(fs, "Status") {
                Some(sv) => sv,
                None => {
                    return Err(RpcError::Decode(context.to_owned()));
                },
            };
            let status = read_epoch(sv, context)?;
            Ok(IPCReadSubnetActorStateResponse { check_period, status })
        },
        _ => Err(RpcError::Decode(context.to_owned())),
    }
}

// ------------------------------------------------------------------
// Child subnet listing
// ------------------------------------------------------------------

/// A registered child subnet as the gateway reports it: its identifier, its
/// collateral stake, its circulating supply, and its lifecycle status.
#[derive(Debug, Clone, PartialEq, Eq)]
pub struct SubnetInfo {
    pub id: SubnetID,
    pub stake: TokenAmount,
    pub circ_supply: TokenAmount,
    pub status: i64,
}

/// One child subnet entry has its expected shape: a path-text `Id`, decimal
/// `Stake` and `CircSupply` amounts, and a numeric `Status`.
pub open spec fn subnet_info_ok(v: JsonValue) -> bool {
    &&& v matches JsonValue::Object(fs)
    &&& lookup_field(fs@, "Id"@) matches Some(iv) && is_str_shape(iv) && valid_subnet_text(
        str_of(iv),
    )
    &&& lookup_field(fs@, "Stake"@) matches Some(sv) && is_str_shape(sv) && is_canonical_dec_text(
        str_of(sv),
    )
    &&& lookup_field(fs@, "CircSupply"@) matches Some(cv) && is_str_shape(cv)
        && is_canonical_dec_text(str_of(cv))
    &&& lookup_field(fs@, "Status"@) matches Some(tv) && epoch_shape(tv)
}

/// One decoded child subnet entry against its wire form.
pub open spec fn subnet_info_rel(v: JsonValue, r: SubnetInfo) -> bool {
    &&& v matches JsonValue::Object(fs)
    &&& lookup_field(fs@, "Id"@) matches Some(iv) && path_text(r.id@) == str_of(iv)
        && r.id.well_formed()
    &&& lookup_field(fs@, "Stake"@) matches Some(sv) && r.stake@ == text_digits(str_of(sv))
    &&& lookup_field(fs@, "CircSupply"@) matches Some(cv) && r.circ_supply@ == text_digits(
        str_of(cv),
    )
    &&& lookup_field(fs@, "Status"@) matches Some(tv) && r.status == epoch_of(tv)
}

/// Decodes one child subnet entry; fails exactly when the entry does not
/// have the expected shape.
pub fn decode_subnet_info(v: &JsonValue, context: &str) -> (r: Result<SubnetInfo, RpcError>)
    ensures
        r is Ok <==> subnet_info_ok(*v),
        r matches Ok(info) ==> subnet_info_rel(*v, info),
        r matches Err(e) ==> e matches RpcError::Decode(m) && m@ == context@,
{
    match v {
        JsonValue::Object(fs) => {
            let id = match get_field(fs, "Id") {
                Some(JsonValue::Str(t)) => {
                    match SubnetID::from_text(t.as_str()) {
                        Some(id) => id,
                        None => {
                            return Err(RpcError::Decode(context.to_owned()));
                        },
                    }
                },
                _ => {
                    return Err(RpcError::Decode(context.to_owned()));
                },
            };
            let stake = match get_field(fs, "Stake") {
                Some(JsonValue::Str(t)) => {
                    match TokenAmount::decode(t.as_str()) {
                        Some(a) => a,
                        None => {
                            return Err(RpcError::Decode(context.to_owned()));
                        },
                    }
                },
                _ => {
                    return Err(RpcError::Decode(context.to_owned()));
                },
            };
            let circ_supply = match get_field(fs, "CircSupply") {
                Some(JsonValue::Str(t)) => {
                    match TokenAmount::decode(t.as_str()) {
                        Some(a) => a,
                        None => {
                            return Err(RpcError::Decode(context.to_owned()));
                        },
                    }
                },
                _ => {
                    return Err(RpcError::Decode(context.to_owned()));
                },
            };
            let status = match get_field(fs, "Status") {
                Some(tv) => read_epoch(tv, context)?,
                None => {
                    return Err(RpcError::Decode(context.to_owned()));
                },
            };
            Ok(SubnetInfo { id, stake, circ_supply, status })
        },
        _ => Err(RpcError::Decode(context.to_owned())),
    }
}

/// The child listing has its expected shape: null (no children), or an array
/// of well-shaped entries.
pub open spec fn subnet_list_ok(v: JsonValue) -> bool {
    ||| v is Null
    ||| (match v {
        JsonValue::Array(xs) => forall|i: int|
            0 <= i < xs@.len() ==> subnet_info_ok(#[trigger] xs@[i]),
        _ => false,
    })
}

/// Decodes the child subnet listing. A null or absent listing means the
/// subnet has no children and yields the empty sequence, never an error; a
/// present listing is decoded all-or-nothing.
pub fn decode_subnet_list(v: &JsonValue, context: &str) -> (r: Result<Vec<SubnetInfo>, RpcError>)
    ensures
        r is Ok <==> subnet_list_ok(*v),
        r matches Ok(infos) ==> (v is Null ==> infos@.len() == 0),
        r matches Ok(infos) ==> (v matches JsonValue::Array(xs) ==> infos@.len() == xs@.len()
            && forall|i: int|
            0 <= i < infos@.len() ==> subnet_info_rel(xs@[i], #[trigger] infos@[i])),
        r matches Err(e) ==> e matches RpcError::Decode(m) && m@ == context@,
{
    match v {
        JsonValue::Null => Ok(Vec::new()),
        JsonValue::Array(xs) => {
            let mut out: Vec<SubnetInfo> = Vec::new();
            let mut i: usize = 0;
            while i < xs.len()
                invariant
                    *v == JsonValue::Array(*xs),
                    i <= xs@.len(),
                    out@.len() == i as nat,
                    forall|j: int| 0 <= j < i ==> subnet_info_ok(#[trigger] xs@[j]),
                    forall|j: int|
                        0 <= j < i ==> subnet_info_rel(xs@[j], #[trigger] out@[j]),
                decreases xs@.len() - i,
            {
                match decode_subnet_info(&xs[i], context) {
                    Ok(info) => {
                        out.push(info);
                    },
                    Err(e) => {
                        proof {
                            if subnet_list_ok(*v) {
                                let xs2 = (*v)->Array_0;
                                assert(subnet_info_ok(xs2@[i as int]));
                                assert(false);
                            }
                        }
                        return Err(e);
                    },
                }
                i = i + 1;
            }
            Ok(out)
        },
        _ => Err(RpcError::Decode(context.to_owned())),
    }
}

// ------------------------------------------------------------------
// Actor code identifiers
// ------------------------------------------------------------------

/// The actor code table has its expected shape: an object mapping each
/// symbolic actor name to a tagged content identifier whose text is a
/// well-formed identifier.
pub open spec fn code_cids_ok(v: JsonValue) -> bool {
    match v {
        JsonValue::Object(fs) => forall|i: int|
            0 <= i < fs@.len() ==> cid_json_shape((#[trigger] fs@[i]).1) && cid_text_ok(
                cid_json_text(fs@[i].1),
            ),
        _ => false,
    }
}

/// Decodes the mapping of symbolic actor names to content identifiers,
/// validating each identifier's text; one malformed identifier fails the
/// whole call.
pub fn decode_actor_code_cids(v: &JsonValue, context: &str) -> (r: Result<
    Vec<(String, Cid)>,
    RpcError,
>)
    ensures
        r is Ok <==> code_cids_ok(*v),
        r matches Ok(cs) ==> (v matches JsonValue::Object(fs) && cs@.len() == fs@.len() && forall|
            i: int,
        |
            0 <= i < cs@.len() ==> (#[trigger] cs@[i]).0@ == fs@[i].0@ && cs@[i].1@
                == cid_json_text(fs@[i].1) && cid_text_ok(cs@[i].1@)),
        r matches Err(e) ==> e matches RpcError::Decode(m) && m@ == context@,
{
    match v {
        JsonValue::Object(fs) => {
            let mut out: Vec<(String, Cid)> = Vec::new();
            let mut i: usize = 0;
            while i < fs.len()
                invariant
                    *v == JsonValue::Object(*fs),
                    i <= fs@.len(),
                    out@.len() == i as nat,
                    forall|j: int|
                        #![trigger fs@[j]]
                        0 <= j < i ==> cid_json_shape(fs@[j].1) && cid_text_ok(
                            cid_json_text(fs@[j].1),
                        ),
                    forall|j: int|
                        0 <= j < i ==> (#[trigger] out@[j]).0@ == fs@[j].0@ && out@[j].1@
                            == cid_json_text(fs@[j].1) && cid_text_ok(out@[j].1@),
                decreases fs@.len() - i,
            {
                let cid = match read_cid(&fs[i].1, context) {
                    Ok(c) => c,
                    Err(e) => {
                        proof {
                            if code_cids_ok(*v) {
                                let fs2 = (*v)->Object_0;
                                assert(cid_json_shape(fs2@[i as int].1));
                                assert(false);
                            }
                        }
                        return Err(e);
                    },
                };
                if !cid_text_check(cid.as_text()) {
                    proof {
                        if code_cids_ok(*v) {
                            let fs2 = (*v)->Object_0;
                            assert(cid_text_ok(cid_json_text(fs2@[i as int].1)));
                            assert(false);
                        }
                    }
                    return Err(RpcError::Decode(context.to_owned()));
                }
                out.push((fs[i].0.clone(), cid));
                i = i + 1;
            }
            Ok(out)
        },
        _ => Err(RpcError::Decode(context.to_owned())),
    }
}

// ------------------------------------------------------------------
// Wallets and network metadata
// ------------------------------------------------------------------

/// Decodes the wallet listing: an array of address texts.
pub fn decode_wallet_list(v: &JsonValue, context: &str) -> (r: Result<Vec<Address>, RpcError>)
    ensures
        r is Ok <==> crate::wire::str_array_shape(*v),
        r matches Ok(addrs) ==> addrs.deep_view() == crate::wire::str_array_texts(*v),
        r matches Err(e) ==> e matches RpcError::Decode(m) && m@ == context@,
{
    let texts = read_str_array(v, context)?;
    let mut out: Vec<Address> = Vec::new();
    let mut i: usize = 0;
    while i < texts.len()
        invariant
            i <= texts@.len(),
            out.deep_view().len() == i as nat,
            forall|j: int|
                #![trigger out.deep_view()[j]]
                0 <= j < i ==> out.deep_view()[j] == texts.deep_view()[j],
        decreases texts@.len() - i,
    {
        let ghost old_deep = out.deep_view();
        out.push(Address::new(texts[i].clone()));
        proof {
            assert(out.deep_view() =~= old_deep.push(texts@[i as int]@));
        }
        i = i + 1;
    }
    proof {
        assert(out.deep_view() =~= texts.deep_view());
    }
    Ok(out)
}

/// The network protocol version the remote chain runs.
pub type NetworkVersion = u32;

/// Decodes a network version: an unsigned number within the version range.
pub fn decode_network_version(v: &JsonValue, context: &str) -> (r: Result<NetworkVersion, RpcError>)
    ensures
        r is Ok <==> (v matches JsonValue::UInt(u) && u <= u32::MAX as u64),
        r matches Ok(nv) ==> *v == JsonValue::UInt(nv as u64),
        r matches Err(e) ==> e matches RpcError::Decode(m) && m@ == context@,
{
    match v {
        JsonValue::UInt(u) => {
            if *u <= u32::MAX as u64 {
                Ok(*u as u32)
            } else {
                Err(RpcError::Decode(context.to_owned()))
            }
        },
        _ => Err(RpcError::Decode(context.to_owned())),
    }
}

} // verus!
