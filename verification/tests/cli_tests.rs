use ipc_agent::cli::decode_list_subnets_response;
use ipc_agent::cli::list_subnets_params;
use ipc_agent::errors::RpcError;
use ipc_agent::json::JsonValue;

fn summary_entry(id: &str, stake: &str, supply: &str, status: i64) -> JsonValue {
    JsonValue::Object(vec![
        (String::from("id"), JsonValue::Str(String::from(id))),
        (String::from("stake"), JsonValue::Str(String::from(stake))),
        (String::from("circ_supply"), JsonValue::Str(String::from(supply))),
        (String::from("status"), JsonValue::Int(status)),
    ])
}

#[test]
fn listing_params_carry_gateway_and_subnet() {
    let v = list_subnets_params("t064", "/root");
    match v {
        JsonValue::Object(fs) => {
            assert_eq!(fs.len(), 2);
            assert_eq!(fs[0].0, "gateway_address");
            assert!(matches!(&fs[0].1, JsonValue::Str(s) if s == "t064"));
            assert_eq!(fs[1].0, "subnet_id");
            assert!(matches!(&fs[1].1, JsonValue::Str(s) if s == "/root"));
        },
        _ => panic!("the listing parameters must be a keyed object"),
    }
}

#[test]
fn listing_decode_is_lossless_for_large_stakes() {
    let v = JsonValue::Object(vec![(
        String::from("/root/a"),
        summary_entry("/root/a", "340282366920938463463374607431768211456", "0", 1),
    )]);
    let r = decode_list_subnets_response(&v, "child subnets").unwrap();
    assert_eq!(r.len(), 1);
    assert_eq!(r[0].id, "/root/a");
    assert_eq!(r[0].collateral.encode(), "340282366920938463463374607431768211456");
    assert_eq!(r[0].circ_supply.encode(), "0");
    assert_eq!(r[0].status, 1);
}

#[test]
fn listing_decode_rejects_malformed_stake() {
    let v = JsonValue::Object(vec![(
        String::from("/root/a"),
        summary_entry("/root/a", "12.5", "0", 1),
    )]);
    let r = decode_list_subnets_response(&v, "child subnets");
    assert!(matches!(r, Err(RpcError::Decode(_))));
}
