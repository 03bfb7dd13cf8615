use std::cell::RefCell;
use std::rc::Rc;
use std::sync::Arc;

use base64::Engine;
use ipc_agent::amount::TokenAmount;
use ipc_agent::client::LotusJsonRPCClient;
use ipc_agent::client::WalletKeyType;
use ipc_agent::config::Config;
use ipc_agent::config::ReloadableConfig;
use ipc_agent::config::Subnet;
use ipc_agent::errors::RpcError;
use ipc_agent::errors::TransportError;
use ipc_agent::handlers::ListBottomUpCheckpointsHandler;
use ipc_agent::handlers::ListBottomUpCheckpointsParams;
use ipc_agent::ids::Address;
use ipc_agent::ids::Cid;
use ipc_agent::ids::SubnetID;
use ipc_agent::json::JsonValue;
use ipc_agent::jsonrpc::JsonRpcClient;
use ipc_agent::messages::MpoolPushMessage;
use ipc_agent::pool::SubnetManagerPool;

fn envelope(tag: u64) -> Vec<u8> {
    fvm_ipld_encoding::to_vec(&serde_json::Value::from(tag)).unwrap()
}

fn envelope_text(tag: u64) -> String {
    base64::engine::general_purpose::STANDARD.encode(envelope(tag))
}

fn subnet_entry(path: &str, endpoint: &str) -> Subnet {
    Subnet {
        id: SubnetID::from_text(path).unwrap(),
        gateway_addr: Address::new(String::from("t064")),
        network_name: String::from("testnet"),
        jsonrpc_api_http: String::from(endpoint),
        jsonrpc_api_ws: None,
        auth_token: None,
        accounts: vec![],
    }
}

fn pool_with(entries: Vec<Subnet>) -> Arc<SubnetManagerPool> {
    let config = Config { subnets: entries };
    let reload = Arc::new(ReloadableConfig::new(config));
    Arc::new(SubnetManagerPool::from_reload_config(reload))
}

/// Records every call and answers from a scripted response list.
struct RecordingStub {
    log: Rc<RefCell<Vec<(String, JsonValue)>>>,
    responses: Rc<RefCell<Vec<JsonValue>>>,
}

impl JsonRpcClient for RecordingStub {
    fn from_endpoint(_url: &str, _bearer_token: Option<&str>) -> Self {
        RecordingStub { log: Rc::new(RefCell::new(vec![])), responses: Rc::new(RefCell::new(vec![])) }
    }

    fn request(&self, method: &str, params: JsonValue) -> Result<JsonValue, TransportError> {
        self.log.borrow_mut().push((method.to_string(), params));
        if self.responses.borrow().is_empty() {
            return Err(TransportError::Remote(String::from("no scripted response left")));
        }
        Ok(self.responses.borrow_mut().remove(0))
    }
}

/// Fails the test if any transport call is ever attempted.
struct PanicStub;

impl JsonRpcClient for PanicStub {
    fn from_endpoint(_url: &str, _bearer_token: Option<&str>) -> Self {
        PanicStub
    }

    fn request(&self, _method: &str, _params: JsonValue) -> Result<JsonValue, TransportError> {
        panic!("a transport call was attempted where none is allowed");
    }
}

/// Answers the checkpoint listing with two fixed envelopes, in order.
struct ScriptedStub;

impl JsonRpcClient for ScriptedStub {
    fn from_endpoint(_url: &str, _bearer_token: Option<&str>) -> Self {
        ScriptedStub
    }

    fn request(&self, method: &str, _params: JsonValue) -> Result<JsonValue, TransportError> {
        if method == "Filecoin.IPCListCheckpointsSerialized" {
            Ok(JsonValue::Array(vec![
                JsonValue::Str(envelope_text(1)),
                JsonValue::Str(envelope_text(2)),
            ]))
        } else {
            Err(TransportError::Remote(String::from("unexpected method")))
        }
    }
}

/// Reports inclusion only on the third poll, and only at confidence depth two.
struct SlowInclusionStub {
    polls: Rc<RefCell<u32>>,
}

impl JsonRpcClient for SlowInclusionStub {
    fn from_endpoint(_url: &str, _bearer_token: Option<&str>) -> Self {
        SlowInclusionStub { polls: Rc::new(RefCell::new(0)) }
    }

    fn request(&self, method: &str, params: JsonValue) -> Result<JsonValue, TransportError> {
        assert_eq!(method, "Filecoin.StateWaitMsg");
        // the poll must carry the protocol constants: confidence depth two,
        // no look-back limit, replacement allowed
        match &params {
            JsonValue::Array(xs) => {
                assert_eq!(xs.len(), 4);
                assert!(matches!(xs[1], JsonValue::UInt(2)));
                assert!(matches!(xs[2], JsonValue::Int(-1)));
                assert!(matches!(xs[3], JsonValue::Bool(true)));
            },
            _ => panic!("state wait parameters must be a positional array"),
        }
        *self.polls.borrow_mut() += 1;
        if *self.polls.borrow() < 3 {
            Ok(JsonValue::Null)
        } else {
            Ok(JsonValue::Object(vec![
                (String::from("Height"), JsonValue::Int(105)),
                (
                    String::from("Receipt"),
                    JsonValue::Object(vec![(String::from("ExitCode"), JsonValue::UInt(0))]),
                ),
            ]))
        }
    }
}

#[test]
fn prev_checkpoint_for_root_is_rejected_before_any_transport_call() {
    let facade = LotusJsonRPCClient::new(PanicStub);
    let root = SubnetID::from_text("/root").unwrap();
    let r = facade.ipc_get_prev_checkpoint_for_child(&root);
    assert!(matches!(r, Err(RpcError::Validation(_))));
}

#[test]
fn prev_checkpoint_null_means_no_prior_checkpoint() {
    let stub = RecordingStub {
        log: Rc::new(RefCell::new(vec![])),
        responses: Rc::new(RefCell::new(vec![JsonValue::Null])),
    };
    let facade = LotusJsonRPCClient::new(stub);
    let child = SubnetID::from_text("/root/a").unwrap();
    let r = facade.ipc_get_prev_checkpoint_for_child(&child).unwrap();
    assert!(r.is_none());
}

#[test]
fn listing_checkpoints_for_a_root_subnet_is_a_validation_error() {
    let pool = pool_with(vec![subnet_entry("/root", "http://node-a")]);
    let handler = ListBottomUpCheckpointsHandler::new(pool);
    let root = SubnetID::from_text("/root").unwrap();
    let r = handler.list_checkpoints_for_child::<PanicStub>(&root, 10, 20);
    match r {
        Err(RpcError::Validation(m)) => {
            assert_eq!(m, "the subnet identifier does not have a parent")
        },
        _ => panic!("a root subnet has no parent and must be rejected"),
    }
}

#[test]
fn checkpoint_listing_resolves_the_parent_and_preserves_order() {
    // the registry knows the parent /root; the child /root/A names it
    let pool = pool_with(vec![subnet_entry("/root", "http://node-a")]);
    // the pool resolves the parent's connection from the snapshot
    let root = SubnetID::from_text("/root").unwrap();
    let conn = pool.get::<ScriptedStub>(&root).unwrap();
    assert_eq!(conn.subnet().jsonrpc_api_http, "http://node-a");
    // the handler delegates and hands the checkpoints back in order
    let handler = ListBottomUpCheckpointsHandler::new(pool);
    let request = ListBottomUpCheckpointsParams {
        subnet_id: String::from("/root/A"),
        from_epoch: 10,
        to_epoch: 20,
    };
    let r = handler.handle::<ScriptedStub>(&request).unwrap();
    assert_eq!(r.len(), 2);
    assert_eq!(r[0].payload(), &envelope(1));
    assert_eq!(r[1].payload(), &envelope(2));
}

#[test]
fn checkpoint_listing_issues_one_exact_facade_call() {
    let log = Rc::new(RefCell::new(vec![]));
    let stub = RecordingStub {
        log: Rc::clone(&log),
        responses: Rc::new(RefCell::new(vec![JsonValue::Array(vec![
            JsonValue::Str(envelope_text(1)),
            JsonValue::Str(envelope_text(2)),
        ])])),
    };
    let facade = LotusJsonRPCClient::new(stub);
    let child = SubnetID::from_text("/root/A").unwrap();
    let r = facade.ipc_list_checkpoints(&child, 10, 20).unwrap();
    assert_eq!(r.len(), 2);
    let calls = log.borrow();
    assert_eq!(calls.len(), 1);
    assert_eq!(calls[0].0, "Filecoin.IPCListCheckpointsSerialized");
    match &calls[0].1 {
        JsonValue::Array(xs) => {
            assert_eq!(xs.len(), 3);
            match &xs[0] {
                JsonValue::Str(s) => assert_eq!(s, "/root/A"),
                _ => panic!("the child subnet must travel as its path text"),
            }
            assert!(matches!(xs[1], JsonValue::Int(10)));
            assert!(matches!(xs[2], JsonValue::Int(20)));
        },
        _ => panic!("the checkpoint listing parameters must be a positional array"),
    }
}

#[test]
fn unknown_parent_is_not_found_without_any_transport_attempt() {
    // the registry does not contain /root, the parent of /root/B
    let pool = pool_with(vec![subnet_entry("/other", "http://node-b")]);
    let missing = SubnetID::from_text("/root/B").unwrap();
    assert!(pool.get::<PanicStub>(&missing).is_none());
    let handler = ListBottomUpCheckpointsHandler::new(pool);
    let request = ListBottomUpCheckpointsParams {
        subnet_id: String::from("/root/B"),
        from_epoch: 0,
        to_epoch: 5,
    };
    let r = handler.handle::<PanicStub>(&request);
    match r {
        Err(RpcError::Validation(m)) => assert_eq!(m, "target parent subnet not found"),
        _ => panic!("an unregistered parent must be a validation error"),
    }
}

#[test]
fn pool_lookup_is_none_exactly_when_absent() {
    let pool = pool_with(vec![
        subnet_entry("/root", "http://node-a"),
        subnet_entry("/root/a", "http://node-c"),
    ]);
    let present = SubnetID::from_text("/root/a").unwrap();
    let absent = SubnetID::from_text("/root/b").unwrap();
    let conn = pool.get::<PanicStub>(&present).unwrap();
    assert_eq!(conn.subnet().jsonrpc_api_http, "http://node-c");
    assert!(pool.get::<PanicStub>(&absent).is_none());
}

#[test]
fn pool_reads_one_consistent_snapshot_per_lookup() {
    // a reload publishes a whole new snapshot: lookups against the first
    // snapshot and against the second each see one full registry
    let before = pool_with(vec![subnet_entry("/root", "http://node-a")]);
    let after = pool_with(vec![subnet_entry("/root", "http://node-b")]);
    let root = SubnetID::from_text("/root").unwrap();
    assert_eq!(
        before.get::<PanicStub>(&root).unwrap().subnet().jsonrpc_api_http,
        "http://node-a"
    );
    assert_eq!(
        after.get::<PanicStub>(&root).unwrap().subnet().jsonrpc_api_http,
        "http://node-b"
    );
}

#[test]
fn empty_endpoint_is_rejected_as_validation() {
    let pool = pool_with(vec![subnet_entry("/root", "")]);
    let handler = ListBottomUpCheckpointsHandler::new(pool);
    let child = SubnetID::from_text("/root/a").unwrap();
    let r = handler.list_checkpoints_for_child::<PanicStub>(&child, 0, 1);
    assert!(matches!(r, Err(RpcError::Validation(_))));
}

#[test]
fn wait_for_message_reports_success_only_on_the_third_poll() {
    let polls = Rc::new(RefCell::new(0));
    let stub = SlowInclusionStub { polls: Rc::clone(&polls) };
    let facade = LotusJsonRPCClient::new(stub);
    let cid = Cid::new(String::from("bafymsg"));
    let r = facade.state_wait_msg(&cid).unwrap();
    assert_eq!(*polls.borrow(), 3);
    assert_eq!(r.height, 105);
    assert_eq!(r.exit_code, 0);
}

#[test]
fn wallet_balance_decodes_decimal_strings_losslessly() {
    let stub = RecordingStub {
        log: Rc::new(RefCell::new(vec![])),
        responses: Rc::new(RefCell::new(vec![JsonValue::Str(String::from(
            "340282366920938463463374607431768211456",
        ))])),
    };
    let facade = LotusJsonRPCClient::new(stub);
    let a = Address::new(String::from("t01000"));
    let balance = facade.wallet_balance(&a).unwrap();
    assert_eq!(balance.encode(), "340282366920938463463374607431768211456");
}

#[test]
fn wallet_default_validates_the_address_text() {
    let good = RecordingStub {
        log: Rc::new(RefCell::new(vec![])),
        responses: Rc::new(RefCell::new(vec![JsonValue::Str(String::from("t01000"))])),
    };
    let facade = LotusJsonRPCClient::new(good);
    assert_eq!(facade.wallet_default().unwrap().as_text(), "t01000");
    let bad = RecordingStub {
        log: Rc::new(RefCell::new(vec![])),
        responses: Rc::new(RefCell::new(vec![JsonValue::Str(String::from("not an address"))])),
    };
    let facade = LotusJsonRPCClient::new(bad);
    assert!(matches!(facade.wallet_default(), Err(RpcError::Decode(_))));
}

#[test]
fn mpool_push_sends_the_exact_two_part_shape() {
    let log = Rc::new(RefCell::new(vec![]));
    let response = JsonValue::Object(vec![(
        String::from("Message"),
        JsonValue::Object(vec![
            (
                String::from("CID"),
                JsonValue::Object(vec![(String::from("/"), JsonValue::Str(String::from("bafyaccepted")))]),
            ),
            (String::from("Nonce"), JsonValue::UInt(8)),
        ]),
    )]);
    let stub = RecordingStub {
        log: Rc::clone(&log),
        responses: Rc::new(RefCell::new(vec![response])),
    };
    let facade = LotusJsonRPCClient::new(stub);
    let msg = MpoolPushMessage {
        to: Address::new(String::from("t01001")),
        from: Address::new(String::from("t01002")),
        value: TokenAmount::decode("340282366920938463463374607431768211456").unwrap(),
        method: 2,
        params: vec![1, 2, 3],
        nonce: None,
        gas_limit: None,
        gas_fee_cap: None,
        gas_premium: None,
        max_fee: Some(TokenAmount::decode("1000").unwrap()),
        cid: None,
    };
    let r = facade.mpool_push_message(&msg).unwrap();
    assert_eq!(r.cid.as_text(), "bafyaccepted");
    assert_eq!(r.nonce, 8);
    let calls = log.borrow();
    assert_eq!(calls.len(), 1);
    assert_eq!(calls[0].0, "Filecoin.MpoolPushMessage");
    match &calls[0].1 {
        JsonValue::Array(parts) => {
            assert_eq!(parts.len(), 2);
            match &parts[0] {
                JsonValue::Object(fs) => {
                    assert_eq!(fs.len(), 11);
                    assert_eq!(fs[0].0, "to");
                    // the value travels as its exact decimal text, never as a
                    // native number
                    assert_eq!(fs[2].0, "value");
                    match &fs[2].1 {
                        JsonValue::Str(s) => {
                            assert_eq!(s, "340282366920938463463374607431768211456")
                        },
                        _ => panic!("the value must travel as a decimal string"),
                    }
                    // the opaque call parameters travel base64-encoded
                    assert_eq!(fs[4].0, "params");
                    match &fs[4].1 {
                        JsonValue::Str(s) => assert_eq!(s, "AQID"),
                        _ => panic!("the call parameters must travel as base64 text"),
                    }
                    // unset fields travel as explicit nulls
                    assert_eq!(fs[5].0, "nonce");
                    assert!(matches!(fs[5].1, JsonValue::Null));
                    assert_eq!(fs[10].0, "version");
                    assert!(matches!(fs[10].1, JsonValue::Null));
                },
                _ => panic!("the message body must be a keyed object"),
            }
            match &parts[1] {
                JsonValue::Object(fs) => {
                    assert_eq!(fs.len(), 1);
                    assert_eq!(fs[0].0, "max_fee");
                    assert!(matches!(fs[0].1, JsonValue::UInt(1000)));
                },
                _ => panic!("the options must be a keyed object"),
            }
        },
        _ => panic!("the parameters must be a two-part positional array"),
    }
}

#[test]
fn actor_code_cids_validates_every_identifier() {
    let good = JsonValue::Object(vec![(
        String::from("system"),
        JsonValue::Object(vec![(
            String::from("/"),
            JsonValue::Str(String::from("QmdfTbBqBPQ7VNxZEYEj14VmRuZBkqFbiwReogJgS1zR1n")),
        )]),
    )]);
    let stub = RecordingStub {
        log: Rc::new(RefCell::new(vec![])),
        responses: Rc::new(RefCell::new(vec![good])),
    };
    let facade = LotusJsonRPCClient::new(stub);
    let r = facade.state_actor_code_cids(16).unwrap();
    assert_eq!(r.len(), 1);
    assert_eq!(r[0].0, "system");
    let bad = JsonValue::Object(vec![(
        String::from("system"),
        JsonValue::Object(vec![(String::from("/"), JsonValue::Str(String::from("???")))]),
    )]);
    let stub = RecordingStub {
        log: Rc::new(RefCell::new(vec![])),
        responses: Rc::new(RefCell::new(vec![bad])),
    };
    let facade = LotusJsonRPCClient::new(stub);
    assert!(matches!(facade.state_actor_code_cids(16), Err(RpcError::Decode(_))));
}

#[test]
fn wallet_new_sends_the_key_kind_text() {
    let log = Rc::new(RefCell::new(vec![]));
    let stub = RecordingStub {
        log: Rc::clone(&log),
        responses: Rc::new(RefCell::new(vec![JsonValue::Str(String::from("t01003"))])),
    };
    let facade = LotusJsonRPCClient::new(stub);
    let r = facade.wallet_new(WalletKeyType::Secp256k1).unwrap();
    assert_eq!(r, "t01003");
    let calls = log.borrow();
    assert_eq!(calls[0].0, "Filecoin.WalletNew");
    match &calls[0].1 {
        JsonValue::Array(xs) => match &xs[0] {
            JsonValue::Str(s) => assert_eq!(s, "secp256k1"),
            _ => panic!("the key kind must travel as text"),
        },
        _ => panic!("the parameters must be a positional array"),
    }
}

#[test]
fn checkpoint_fetch_returns_exactly_the_decoded_envelope() {
    let stub = RecordingStub {
        log: Rc::new(RefCell::new(vec![])),
        responses: Rc::new(RefCell::new(vec![
            JsonValue::Str(envelope_text(5)),
            JsonValue::Str(envelope_text(6)),
        ])),
    };
    let facade = LotusJsonRPCClient::new(stub);
    let subnet = SubnetID::from_text("/root/a").unwrap();
    let c = facade.ipc_get_checkpoint(&subnet, 3).unwrap();
    assert_eq!(c.payload(), &envelope(5));
    let t = facade.ipc_get_checkpoint_template(7).unwrap();
    assert_eq!(t.payload(), &envelope(6));
}

#[test]
fn checkpoint_fetch_fails_on_a_corrupted_envelope() {
    let stub = RecordingStub {
        log: Rc::new(RefCell::new(vec![])),
        responses: Rc::new(RefCell::new(vec![JsonValue::Str(String::from("!!!"))])),
    };
    let facade = LotusJsonRPCClient::new(stub);
    let subnet = SubnetID::from_text("/root/a").unwrap();
    assert!(matches!(facade.ipc_get_checkpoint(&subnet, 3), Err(RpcError::Decode(_))));
}

#[test]
fn prev_checkpoint_hands_the_tagged_identifier_through() {
    let response = JsonValue::Object(vec![(
        String::from("/"),
        JsonValue::Str(String::from("bafyprior")),
    )]);
    let stub = RecordingStub {
        log: Rc::new(RefCell::new(vec![])),
        responses: Rc::new(RefCell::new(vec![response])),
    };
    let facade = LotusJsonRPCClient::new(stub);
    let child = SubnetID::from_text("/root/a").unwrap();
    let r = facade.ipc_get_prev_checkpoint_for_child(&child).unwrap();
    assert_eq!(r.unwrap().as_text(), "bafyprior");
}

#[test]
fn listing_checkpoints_for_a_rootless_child_never_touches_the_transport() {
    let facade = LotusJsonRPCClient::new(PanicStub);
    let root = SubnetID::from_text("/root").unwrap();
    let r = facade.ipc_list_checkpoints(&root, 0, 10);
    match r {
        Err(RpcError::Validation(m)) => {
            assert_eq!(m, "the child subnet identifier has no parent")
        },
        _ => panic!("a child without a parent must be rejected before any transport call"),
    }
}

#[test]
fn genesis_epoch_and_votes_decode_their_primitives() {
    let stub = RecordingStub {
        log: Rc::new(RefCell::new(vec![])),
        responses: Rc::new(RefCell::new(vec![JsonValue::Int(321), JsonValue::Bool(true)])),
    };
    let facade = LotusJsonRPCClient::new(stub);
    let subnet = SubnetID::from_text("/root/a").unwrap();
    let gateway = Address::new(String::from("t064"));
    assert_eq!(facade.ipc_get_genesis_epoch_for_subnet(&subnet, &gateway).unwrap(), 321);
    let validator = Address::new(String::from("t01009"));
    assert!(facade.ipc_validator_has_voted_bottomup(&subnet, 50, &validator).unwrap());
}

#[test]
fn gateway_state_reads_name_and_period() {
    let response = JsonValue::Object(vec![
        (String::from("NetworkName"), JsonValue::Str(String::from("testnet"))),
        (String::from("CheckPeriod"), JsonValue::Int(10)),
    ]);
    let stub = RecordingStub {
        log: Rc::new(RefCell::new(vec![])),
        responses: Rc::new(RefCell::new(vec![response])),
    };
    let facade = LotusJsonRPCClient::new(stub);
    let tipset = Cid::new(String::from("bafytip"));
    let r = facade.ipc_read_gateway_state(&tipset).unwrap();
    assert_eq!(r.network_name, "testnet");
    assert_eq!(r.check_period, 10);
}

/// Simulates an unreachable node.
struct DownStub;

impl JsonRpcClient for DownStub {
    fn from_endpoint(_url: &str, _bearer_token: Option<&str>) -> Self {
        DownStub
    }

    fn request(&self, _m: &str, _p: JsonValue) -> Result<JsonValue, TransportError> {
        Err(TransportError::Unreachable(String::from("connection refused")))
    }
}

#[test]
fn topdown_messages_preserve_the_pagination_nonce() {
    let log = Rc::new(RefCell::new(vec![]));
    let stub = RecordingStub {
        log: Rc::clone(&log),
        responses: Rc::new(RefCell::new(vec![JsonValue::Array(vec![JsonValue::Str(
            envelope_text(9),
        )])])),
    };
    let facade = LotusJsonRPCClient::new(stub);
    let subnet = SubnetID::from_text("/root/a").unwrap();
    let gateway = Address::new(String::from("t064"));
    let tipset = Cid::new(String::from("bafytip"));
    let r = facade.ipc_get_topdown_msgs(&subnet, &gateway, &tipset, 42).unwrap();
    assert_eq!(r.len(), 1);
    assert_eq!(r[0].payload(), &envelope(9));
    let calls = log.borrow();
    assert_eq!(calls.len(), 1);
    assert_eq!(calls[0].0, "Filecoin.IPCGetTopDownMsgsSerialized");
    match &calls[0].1 {
        JsonValue::Array(xs) => {
            assert_eq!(xs.len(), 4);
            assert!(matches!(&xs[0], JsonValue::Str(s) if s == "t064"));
            assert!(matches!(&xs[1], JsonValue::Str(s) if s == "/root/a"));
            // the pagination lower bound travels through unchanged
            assert!(matches!(xs[3], JsonValue::UInt(42)));
        },
        _ => panic!("the top-down parameters must be a positional array"),
    }
}

#[test]
fn transport_failures_keep_their_kind() {
    let facade = LotusJsonRPCClient::new(DownStub);
    let r = facade.state_network_name();
    assert!(matches!(r, Err(RpcError::Transport(_))));
}
