use base64::Engine;
use ipc_agent::errors::RpcError;
use ipc_agent::json::JsonValue;
use ipc_agent::messages::decode_checkpoint_list;
use ipc_agent::messages::decode_crossmsg_list;
use ipc_agent::messages::decode_subnet_list;
use ipc_agent::messages::decode_read_state;
use ipc_agent::messages::decode_chain_head;
use ipc_agent::payload::Checkpoint;
use ipc_agent::wire::read_cid;
use ipc_agent::wire::read_str;

fn valid_envelope_bytes() -> Vec<u8> {
    // one well-formed envelope of the self-describing binary codec
    fvm_ipld_encoding::to_vec(&serde_json::Value::from(7u64)).unwrap()
}

fn valid_envelope_text() -> String {
    base64::engine::general_purpose::STANDARD.encode(valid_envelope_bytes())
}

fn str_value(s: &str) -> JsonValue {
    JsonValue::Str(String::from(s))
}

#[test]
fn envelopes_holding_byte_strings_are_accepted() {
    // genuine chain envelopes carry raw byte strings (addresses, signatures)
    let bytes = fvm_ipld_encoding::to_vec(&fvm_ipld_encoding::RawBytes::new(vec![1, 2, 3])).unwrap();
    let c = Checkpoint::from_envelope(bytes.clone()).unwrap();
    assert_eq!(c.payload(), &bytes);
    let v = JsonValue::Array(vec![JsonValue::Str(
        base64::engine::general_purpose::STANDARD.encode(&bytes),
    )]);
    let cs = decode_checkpoint_list(&v, "checkpoints").unwrap();
    assert_eq!(cs.len(), 1);
}

#[test]
fn envelopes_holding_identifier_links_are_accepted() {
    // genuine checkpoints reference a prior checkpoint by content identifier
    let link = ipld_core::cid::Cid::try_from("QmdfTbBqBPQ7VNxZEYEj14VmRuZBkqFbiwReogJgS1zR1n")
        .unwrap();
    let value = ipld_core::ipld::Ipld::List(vec![
        ipld_core::ipld::Ipld::Link(link),
        ipld_core::ipld::Ipld::Bytes(vec![9, 9]),
        ipld_core::ipld::Ipld::Integer(5),
    ]);
    let bytes = fvm_ipld_encoding::to_vec(&value).unwrap();
    let c = Checkpoint::from_envelope(bytes.clone()).unwrap();
    assert_eq!(c.payload(), &bytes);
}

#[test]
fn envelope_roundtrip_is_validated() {
    let c = Checkpoint::from_envelope(valid_envelope_bytes()).unwrap();
    assert_eq!(c.payload(), &valid_envelope_bytes());
    // bytes that are no envelope of the codec are rejected
    assert!(Checkpoint::from_envelope(vec![0xff, 0xff]).is_none());
}

#[test]
fn checkpoint_list_happy_path_preserves_order() {
    let one = fvm_ipld_encoding::to_vec(&serde_json::Value::from(1u64)).unwrap();
    let two = fvm_ipld_encoding::to_vec(&serde_json::Value::from(2u64)).unwrap();
    let v = JsonValue::Array(vec![
        JsonValue::Str(base64::engine::general_purpose::STANDARD.encode(&one)),
        JsonValue::Str(base64::engine::general_purpose::STANDARD.encode(&two)),
    ]);
    let cs = decode_checkpoint_list(&v, "checkpoints").unwrap();
    assert_eq!(cs.len(), 2);
    assert_eq!(cs[0].payload(), &one);
    assert_eq!(cs[1].payload(), &two);
}

#[test]
fn checkpoint_list_fails_whole_on_one_corrupted_base64() {
    // three valid elements and one truncated base64 element: no partial result
    let v = JsonValue::Array(vec![
        str_value(&valid_envelope_text()),
        str_value(&valid_envelope_text()),
        str_value("!!!not-base64!!!"),
        str_value(&valid_envelope_text()),
    ]);
    let r = decode_checkpoint_list(&v, "checkpoints");
    assert!(matches!(r, Err(RpcError::Decode(_))));
}

#[test]
fn checkpoint_list_fails_whole_on_one_corrupted_envelope() {
    // valid base64 whose bytes are no envelope of the codec
    let bad = base64::engine::general_purpose::STANDARD.encode([0xffu8, 0xff]);
    let v = JsonValue::Array(vec![str_value(&valid_envelope_text()), str_value(&bad)]);
    let r = decode_checkpoint_list(&v, "checkpoints");
    assert!(matches!(r, Err(RpcError::Decode(_))));
}

#[test]
fn crossmsg_list_fails_whole_on_one_corrupted_element() {
    let v = JsonValue::Array(vec![
        str_value(&valid_envelope_text()),
        str_value("%%%"),
        str_value(&valid_envelope_text()),
    ]);
    let r = decode_crossmsg_list(&v, "cross msgs");
    assert!(matches!(r, Err(RpcError::Decode(_))));
    let ok = decode_crossmsg_list(
        &JsonValue::Array(vec![str_value(&valid_envelope_text())]),
        "cross msgs",
    )
    .unwrap();
    assert_eq!(ok.len(), 1);
}

#[test]
fn child_subnet_listing_null_is_empty_not_error() {
    let r = decode_subnet_list(&JsonValue::Null, "children").unwrap();
    assert!(r.is_empty());
}

#[test]
fn child_subnet_listing_decodes_entries() {
    let entry = JsonValue::Object(vec![
        (String::from("Id"), str_value("/root/a")),
        (String::from("Stake"), str_value("1000")),
        (String::from("CircSupply"), str_value("340282366920938463463374607431768211456")),
        (String::from("Status"), JsonValue::UInt(1)),
    ]);
    let r = decode_subnet_list(&JsonValue::Array(vec![entry]), "children").unwrap();
    assert_eq!(r.len(), 1);
    assert_eq!(r[0].id.to_text(), "/root/a");
    assert_eq!(r[0].stake.encode(), "1000");
    assert_eq!(
        r[0].circ_supply.encode(),
        "340282366920938463463374607431768211456"
    );
    assert_eq!(r[0].status, 1);
}

#[test]
fn child_subnet_listing_is_all_or_nothing() {
    let good = JsonValue::Object(vec![
        (String::from("Id"), str_value("/root/a")),
        (String::from("Stake"), str_value("10")),
        (String::from("CircSupply"), str_value("0")),
        (String::from("Status"), JsonValue::UInt(1)),
    ]);
    let bad = JsonValue::Object(vec![
        (String::from("Id"), str_value("not-a-path")),
        (String::from("Stake"), str_value("10")),
        (String::from("CircSupply"), str_value("0")),
        (String::from("Status"), JsonValue::UInt(1)),
    ]);
    let r = decode_subnet_list(&JsonValue::Array(vec![good, bad]), "children");
    assert!(matches!(r, Err(RpcError::Decode(_))));
}

#[test]
fn read_state_extracts_typed_fields_and_raw_state() {
    let v = JsonValue::Object(vec![
        (String::from("Balance"), str_value("12345678901234567890123456789")),
        (
            String::from("Code"),
            JsonValue::Object(vec![(String::from("/"), str_value("bafy2bzacea"))]),
        ),
        (String::from("State"), JsonValue::Array(vec![JsonValue::UInt(9)])),
    ]);
    let r = decode_read_state(v, "read state").unwrap();
    assert_eq!(r.balance.encode(), "12345678901234567890123456789");
    assert_eq!(r.code.as_text(), "bafy2bzacea");
    assert!(matches!(r.state, JsonValue::Array(_)));
}

#[test]
fn read_state_rejects_numeric_balance() {
    // a balance as native numeric JSON could lose precision: the decode
    // accepts decimal strings only
    let v = JsonValue::Object(vec![
        (String::from("Balance"), JsonValue::UInt(5)),
        (
            String::from("Code"),
            JsonValue::Object(vec![(String::from("/"), str_value("bafy2bzacea"))]),
        ),
        (String::from("State"), JsonValue::Null),
    ]);
    assert!(decode_read_state(v, "read state").is_err());
}

#[test]
fn chain_head_decodes_cids_and_height() {
    let v = JsonValue::Object(vec![
        (
            String::from("Cids"),
            JsonValue::Array(vec![JsonValue::Object(vec![(
                String::from("/"),
                str_value("bafyone"),
            )])]),
        ),
        (String::from("Height"), JsonValue::Int(77)),
    ]);
    let r = decode_chain_head(&v, "chain head").unwrap();
    assert_eq!(r.height, 77);
    assert_eq!(r.cids.len(), 1);
    assert_eq!(r.cids[0].as_text(), "bafyone");
}

#[test]
fn primitive_readers_report_the_context_label() {
    let r = read_str(&JsonValue::UInt(3), "wallet balance response");
    match r {
        Err(RpcError::Decode(m)) => assert_eq!(m, "wallet balance response"),
        _ => panic!("a numeric value must not read as a string"),
    }
    let c = read_cid(&JsonValue::Null, "cid field");
    assert!(matches!(c, Err(RpcError::Decode(_))));
}
