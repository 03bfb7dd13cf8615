//! The chain RPC facade: one method per domain operation, each binding one
//! fixed remote method name to an exact parameter shape and an exact response
//! decode. A facade holds only endpoint configuration through its transport
//! client; it is cheap, short lived, and never mutated after construction.

use vstd::prelude::*;

use crate::amount::TokenAmount;
use crate::errors::RpcError;
use crate::codecs::addr_text_ok;
use crate::config::Subnet;
use crate::ids::Address;
use crate::ids::ChainEpoch;
use crate::ids::Cid;
use crate::ids::SubnetID;
use crate::json::JsonValue;
use crate::jsonrpc::JsonRpcClient;
use crate::messages::ChainHeadResponse;
use crate::messages::IPCReadGatewayStateResponse;
use crate::messages::IPCReadSubnetActorStateResponse;
use crate::messages::MpoolPushMessage;
use crate::messages::MpoolPushMessageResponseInner;
use crate::messages::NetworkVersion;
use crate::messages::ReadStateResponse;
use crate::messages::StateWaitMsgResponse;
use crate::messages::SubnetInfo;
use crate::messages::decode_actor_code_cids;
use crate::messages::decode_chain_head;
use crate::messages::decode_checkpoint_envelope;
use crate::messages::decode_prev_checkpoint;
use crate::messages::decode_wallet_default;
use crate::messages::decode_crossmsg_list;
use crate::messages::decode_checkpoint_list;
use crate::messages::decode_gateway_state;
use crate::messages::decode_mpool_push_response;
use crate::messages::decode_network_version;
use crate::messages::decode_read_state;
use crate::messages::decode_subnet_actor_state;
use crate::messages::decode_subnet_list;
use crate::messages::decode_wait_response;
use crate::messages::decode_wallet_list;
use crate::messages::mpool_push_params_json;
use crate::messages::opt_amount_fits;
use crate::payload::Checkpoint;
use crate::payload::CrossMsg;
use crate::wire::array1;
use crate::wire::array2;
use crate::wire::array3;
use crate::wire::array4;
use crate::wire::address_to_json;
use crate::wire::cid_json;
use crate::wire::cid_to_json;
use crate::wire::cids_to_json;
use crate::wire::empty_object;
use crate::wire::is_str;
use crate::wire::read_bool;
use crate::wire::read_epoch;
use crate::wire::read_str;
use crate::wire::subnet_json;
use crate::wire::subnet_to_json;
use crate::wire::tipset_key_json;

verus! {

/// The on-chain address of the gateway bridging contract, fixed by the chain.
pub const GATEWAY_ACTOR_ADDRESS: &'static str = "t064";

/// The confidence depth of the state wait call: a message is reported final
/// only once it is this many epochs deep, defending against short
/// reorganizations.
pub const STATE_WAIT_CONFIDENCE: u64 = 2;

/// The look-back marker of the state wait call: no limit, search arbitrarily
/// far back rather than only the most recent epochs.
pub const STATE_WAIT_LOOK_BACK_NO_LIMIT: i64 = -1;

/// The replacement policy of the state wait call: a later message with the
/// same sender and nonce may supersede the awaited one without erroring.
pub const STATE_WAIT_ALLOW_REPLACE: bool = true;

/// A key kind the remote wallet can generate.
#[derive(Debug, Clone, Copy, PartialEq, Eq)]
pub enum WalletKeyType {
    Secp256k1,
    Bls,
    Secp256k1Ledger,
}

/// The wire text of a wallet key kind.
pub open spec fn key_type_text(k: WalletKeyType) -> Seq<char> {
    match k {
        WalletKeyType::Secp256k1 => "secp256k1"@,
        WalletKeyType::Bls => "bls"@,
        WalletKeyType::Secp256k1Ledger => "secp256k1-ledger"@,
    }
}

impl WalletKeyType {
    /// Renders the key kind as its wire text.
    pub fn as_text(&self) -> (r: &'static str)
        ensures
            r@ == key_type_text(*self),
    {
        match self {
            WalletKeyType::Secp256k1 => "secp256k1",
            WalletKeyType::Bls => "bls",
            WalletKeyType::Secp256k1Ledger => "secp256k1-ledger",
        }
    }
}

// ------------------------------------------------------------------
// Exact parameter shapes of the fixed remote methods
// ------------------------------------------------------------------

/// The state wait parameters: the message identifier and the three protocol
/// constants (confidence depth, look-back limit, replacement policy).
pub open spec fn state_wait_params_shape(v: JsonValue, c: Seq<char>) -> bool {
    &&& v matches JsonValue::Array(xs)
    &&& xs@.len() == 4
    &&& cid_json(xs@[0], c)
    &&& xs@[1] == JsonValue::UInt(STATE_WAIT_CONFIDENCE)
    &&& xs@[2] == JsonValue::Int(STATE_WAIT_LOOK_BACK_NO_LIMIT)
    &&& xs@[3] == JsonValue::Bool(STATE_WAIT_ALLOW_REPLACE)
}

/// Builds the state wait parameters.
pub fn state_wait_params(c: &Cid) -> (r: JsonValue)
    ensures
        state_wait_params_shape(r, c@),
{
    array4(
        cid_to_json(c),
        JsonValue::UInt(STATE_WAIT_CONFIDENCE),
        JsonValue::Int(STATE_WAIT_LOOK_BACK_NO_LIMIT),
        JsonValue::Bool(STATE_WAIT_ALLOW_REPLACE),
    )
}

/// The parameters of the operations keyed by the gateway contract and a
/// child subnet identifier.
pub open spec fn gateway_subnet_params_shape(v: JsonValue, id: Seq<Seq<char>>) -> bool {
    &&& v matches JsonValue::Array(xs)
    &&& xs@.len() == 2
    &&& is_str(xs@[0], GATEWAY_ACTOR_ADDRESS@)
    &&& subnet_json(xs@[1], id)
}

/// Builds the gateway-and-subnet parameters.
pub fn gateway_subnet_params(id: &SubnetID) -> (r: JsonValue)
    ensures
        gateway_subnet_params_shape(r, id@),
{
    array2(JsonValue::Str(GATEWAY_ACTOR_ADDRESS.to_owned()), subnet_to_json(id))
}

/// The checkpoint listing parameters: the child subnet and the epoch range.
pub open spec fn list_checkpoints_params_shape(
    v: JsonValue,
    id: Seq<Seq<char>>,
    from_epoch: i64,
    to_epoch: i64,
) -> bool {
    &&& v matches JsonValue::Array(xs)
    &&& xs@.len() == 3
    &&& subnet_json(xs@[0], id)
    &&& xs@[1] == JsonValue::Int(from_epoch)
    &&& xs@[2] == JsonValue::Int(to_epoch)
}

/// Builds the checkpoint listing parameters.
pub fn list_checkpoints_params(id: &SubnetID, from_epoch: ChainEpoch, to_epoch: ChainEpoch) -> (r:
    JsonValue)
    ensures
        list_checkpoints_params_shape(r, id@, from_epoch, to_epoch),
{
    array3(subnet_to_json(id), JsonValue::Int(from_epoch), JsonValue::Int(to_epoch))
}

/// The top-down message parameters: the gateway, the subnet, the tip set to
/// read at, and the pagination nonce, preserved exactly as the lower bound.
pub open spec fn topdown_msgs_params_shape(
    v: JsonValue,
    gateway: Seq<char>,
    id: Seq<Seq<char>>,
    tipset: Seq<char>,
    nonce: u64,
) -> bool {
    &&& v matches JsonValue::Array(xs)
    &&& xs@.len() == 4
    &&& is_str(xs@[0], gateway)
    &&& subnet_json(xs@[1], id)
    &&& xs@[2] matches JsonValue::Array(ts) && ts@.len() == 1 && cid_json(ts@[0], tipset)
    &&& xs@[3] == JsonValue::UInt(nonce)
}

/// Builds the top-down message parameters.
pub fn topdown_msgs_params(gateway_addr: &Address, id: &SubnetID, tip_set: &Cid, nonce: u64) -> (r:
    JsonValue)
    ensures
        topdown_msgs_params_shape(r, gateway_addr@, id@, tip_set@, nonce),
{
    array4(
        address_to_json(gateway_addr),
        subnet_to_json(id),
        tipset_key_json(tip_set),
        JsonValue::UInt(nonce),
    )
}

// ------------------------------------------------------------------
// The facade
// ------------------------------------------------------------------

/// The facade over one subnet's RPC endpoint, generic over the transport
/// capability so that the same operation set runs against a real client and
/// against a test double.
#[derive(Debug)]
pub struct LotusJsonRPCClient<T: JsonRpcClient> {
    client: T,
}

/// A failure kind other than input validation: transport, remote, or decode.
pub open spec fn non_validation(r: RpcError) -> bool {
    !(r is Validation)
}

impl<T: JsonRpcClient> LotusJsonRPCClient<T> {
    /// The transport client this facade is bound to.
    pub closed spec fn transport(&self) -> T {
        self.client
    }

    /// Wraps a transport client.
    pub fn new(client: T) -> (r: Self)
        ensures
            r.transport() == client,
    {
        LotusJsonRPCClient { client }
    }

    /// Builds a facade whose transport is bound to the subnet's configured
    /// endpoint and bearer token.
    pub fn from_subnet(subnet: &Subnet) -> Self {
        let token: Option<&str> = match &subnet.auth_token {
            Some(t) => Some(t.as_str()),
            None => None,
        };
        LotusJsonRPCClient::new(T::from_endpoint(subnet.jsonrpc_api_http.as_str(), token))
    }

    /// Sends one call and lifts a transport failure into the shared error
    /// type, so that a validation error can only ever mean rejected input.
    fn call(&self, method: &str, params: JsonValue) -> (r: Result<JsonValue, RpcError>)
        ensures
            r matches Err(e) ==> non_validation(e) && !(e is Decode),
    {
        match self.client.request(method, params) {
            Ok(v) => Ok(v),
            Err(te) => Err(RpcError::from_transport(te)),
        }
    }

    /// Pushes a message into the remote mempool; unset nonce and gas fields
    /// travel as explicit nulls so the remote auto-populates them. Returns
    /// the accepted message's identifier and nonce.
    pub fn mpool_push_message(&self, msg: &MpoolPushMessage) -> (r: Result<
        MpoolPushMessageResponseInner,
        RpcError,
    >)
        requires
            msg.value.well_formed(),
            opt_amount_fits(msg.gas_limit),
            opt_amount_fits(msg.gas_fee_cap),
            opt_amount_fits(msg.gas_premium),
            opt_amount_fits(msg.max_fee),
        ensures
            r matches Err(e) ==> non_validation(e),
    {
        let params = mpool_push_params_json(msg);
        let v = self.call("Filecoin.MpoolPushMessage", params)?;
        decode_mpool_push_response(&v, "mpool push message response")
    }

    /// Waits until the message with this identifier is final: it polls the
    /// remote state wait call, which reports inclusion only at confidence
    /// depth two, with no look-back limit, allowing nonce replacement. Every
    /// poll carries those protocol constants; a null response means the
    /// message is not yet final and the wait goes on.
    pub fn state_wait_msg(&self, cid: &Cid) -> (r: Result<StateWaitMsgResponse, RpcError>)
        ensures
            r matches Err(e) ==> non_validation(e),
    {
        let mut budget: u64 = u64::MAX;
        while budget > 0
            decreases budget,
        {
            let params = state_wait_params(cid);
            let v = self.call("Filecoin.StateWaitMsg", params)?;
            match decode_wait_response(&v, "state wait response") {
                Ok(Some(resp)) => {
                    return Ok(resp);
                },
                Ok(None) => {
                },
                Err(e) => {
                    return Err(e);
                },
            }
            budget = budget - 1;
        }
        Err(RpcError::Transport("the message wait gave no final answer".to_owned()))
    }

    /// Reads the human-readable name of the network the node serves.
    pub fn state_network_name(&self) -> (r: Result<String, RpcError>)
        ensures
            r matches Err(e) ==> non_validation(e),
    {
        let v = self.call("Filecoin.StateNetworkName", JsonValue::Null)?;
        read_str(&v, "network name response")
    }

    /// Reads the network protocol version at the given tip sets.
    pub fn state_network_version(&self, tip_sets: &Vec<Cid>) -> (r: Result<
        NetworkVersion,
        RpcError,
    >)
        ensures
            r matches Err(e) ==> non_validation(e),
    {
        let params = array1(cids_to_json(tip_sets));
        let v = self.call("Filecoin.StateNetworkVersion", params)?;
        decode_network_version(&v, "network version response")
    }

    /// Reads the mapping of symbolic actor names to code content identifiers
    /// for a protocol version; every identifier is validated, and one
    /// malformed identifier fails the whole call.
    pub fn state_actor_code_cids(&self, network_version: NetworkVersion) -> (r: Result<
        Vec<(String, Cid)>,
        RpcError,
    >)
        ensures
            r matches Err(e) ==> non_validation(e),
            r matches Ok(cs) ==> forall|i: int|
                0 <= i < cs@.len() ==> crate::codecs::cid_text_ok((#[trigger] cs@[i]).1@),
    {
        let params = array1(JsonValue::UInt(network_version as u64));
        let v = self.call("Filecoin.StateActorCodeCIDs", params)?;
        decode_actor_code_cids(&v, "actor code identifiers response")
    }

    /// Reads the wallet's default address; the returned text is validated
    /// against the chain's address codec.
    pub fn wallet_default(&self) -> (r: Result<Address, RpcError>)
        ensures
            r matches Err(e) ==> non_validation(e),
            r matches Ok(a) ==> addr_text_ok(a@),
    {
        let v = self.call("Filecoin.WalletDefaultAddress", empty_object())?;
        decode_wallet_default(&v, "wallet default address response")
    }

    /// Lists the wallet's addresses.
    pub fn wallet_list(&self) -> (r: Result<Vec<Address>, RpcError>)
        ensures
            r matches Err(e) ==> non_validation(e),
    {
        let v = self.call("Filecoin.WalletList", empty_object())?;
        decode_wallet_list(&v, "wallet list response")
    }

    /// Asks the remote wallet to generate a key of the given kind and returns
    /// the new address text.
    pub fn wallet_new(&self, key_type: WalletKeyType) -> (r: Result<String, RpcError>)
        ensures
            r matches Err(e) ==> non_validation(e),
    {
        let params = array1(JsonValue::Str(key_type.as_text().to_owned()));
        let v = self.call("Filecoin.WalletNew", params)?;
        read_str(&v, "wallet new response")
    }

    /// Reads an address's balance. The remote reports it as a base-10 decimal
    /// string and it is decoded losslessly into the arbitrary-precision
    /// amount, whatever its magnitude.
    pub fn wallet_balance(&self, address: &Address) -> (r: Result<TokenAmount, RpcError>)
        ensures
            r matches Err(e) ==> non_validation(e),
            r matches Ok(t) ==> t.well_formed(),
    {
        let params = array1(address_to_json(address));
        let v = self.call("Filecoin.WalletBalance", params)?;
        let text = read_str(&v, "wallet balance response")?;
        match TokenAmount::decode(text.as_str()) {
            Some(t) => Ok(t),
            None => Err(RpcError::Decode("wallet balance response".to_owned())),
        }
    }

    /// Reads an actor's state at a tip set: its balance, its code identifier,
    /// and the state object itself, handed back for the caller's own typed
    /// decode. The expected shape stays statically known at each call site:
    /// the caller applies its own exact decoder to the returned value, the
    /// explicit-codec form of a result-typed read.
    pub fn read_state(&self, address: &Address, tipset: &Cid) -> (r: Result<
        ReadStateResponse,
        RpcError,
    >)
        ensures
            r matches Err(e) ==> non_validation(e),
            r matches Ok(resp) ==> resp.balance.well_formed(),
    {
        let params = array2(address_to_json(address), tipset_key_json(tipset));
        let v = self.call("Filecoin.StateReadState", params)?;
        decode_read_state(v, "read state response")
    }

    /// Reads the current chain head tip set.
    pub fn chain_head(&self) -> (r: Result<ChainHeadResponse, RpcError>)
        ensures
            r matches Err(e) ==> non_validation(e),
    {
        let v = self.call("Filecoin.ChainHead", JsonValue::Null)?;
        decode_chain_head(&v, "chain head response")
    }

    /// Reads the tip set at the given epoch, anchored at a known tip set.
    pub fn get_tipset_by_height(&self, epoch: ChainEpoch, tip_set: &Cid) -> (r: Result<
        ChainHeadResponse,
        RpcError,
    >)
        ensures
            r matches Err(e) ==> non_validation(e),
    {
        let params = array2(JsonValue::Int(epoch), tipset_key_json(tip_set));
        let v = self.call("Filecoin.ChainGetTipSetByHeight", params)?;
        decode_chain_head(&v, "tip set by height response")
    }

    /// Reads the identifier of the previous checkpoint committed for a child
    /// subnet. The child must have a parent: that is checked before any
    /// transport call, and a validation error here can mean nothing else.
    /// `None` means no prior checkpoint exists.
    pub fn ipc_get_prev_checkpoint_for_child(&self, child_subnet_id: &SubnetID) -> (r: Result<
        Option<Cid>,
        RpcError,
    >)
        ensures
            (r matches Err(e) && e is Validation) <==> child_subnet_id@.len() <= 1,
            child_subnet_id@.len() <= 1 ==> (r matches Err(e) && e matches RpcError::Validation(m)
                && m@ == "the child subnet identifier has no parent"@),
    {
        if child_subnet_id.segment_count() <= 1 {
            return Err(
                RpcError::Validation("the child subnet identifier has no parent".to_owned()),
            );
        }
        let params = gateway_subnet_params(child_subnet_id);
        let v = self.call("Filecoin.IPCGetPrevCheckpointForChild", params)?;
        decode_prev_checkpoint(&v, "previous checkpoint response")
    }

    /// Fetches the pending checkpoint template for an epoch: a base64 string
    /// whose bytes must form one well-formed binary envelope.
    pub fn ipc_get_checkpoint_template(&self, epoch: ChainEpoch) -> (r: Result<
        Checkpoint,
        RpcError,
    >)
        ensures
            r matches Err(e) ==> non_validation(e),
            r matches Ok(c) ==> c.well_formed(),
    {
        let params = array2(
            JsonValue::Str(GATEWAY_ACTOR_ADDRESS.to_owned()),
            JsonValue::Int(epoch),
        );
        let v = self.call("Filecoin.IPCGetCheckpointTemplateSerialized", params)?;
        decode_checkpoint_envelope(&v, "checkpoint template response")
    }

    /// Fetches the checkpoint a subnet committed for an epoch. Remote lookup
    /// failures are expected whenever the checkpoint does not exist yet; they
    /// surface as the remote's own error, never as a panic.
    pub fn ipc_get_checkpoint(&self, subnet_id: &SubnetID, epoch: ChainEpoch) -> (r: Result<
        Checkpoint,
        RpcError,
    >)
        ensures
            r matches Err(e) ==> non_validation(e),
            r matches Ok(c) ==> c.well_formed(),
    {
        let params = array2(subnet_to_json(subnet_id), JsonValue::Int(epoch));
        let v = self.call("Filecoin.IPCGetCheckpointSerialized", params)?;
        decode_checkpoint_envelope(&v, "checkpoint response")
    }

    /// Reads the gateway bridging contract's state at a tip set.
    pub fn ipc_read_gateway_state(&self, tip_set: &Cid) -> (r: Result<
        IPCReadGatewayStateResponse,
        RpcError,
    >)
        ensures
            r matches Err(e) ==> non_validation(e),
    {
        let params = array2(
            JsonValue::Str(GATEWAY_ACTOR_ADDRESS.to_owned()),
            tipset_key_json(tip_set),
        );
        let v = self.call("Filecoin.IPCReadGatewayState", params)?;
        decode_gateway_state(&v, "gateway state response")
    }

    /// Reads a subnet actor's state at a tip set.
    pub fn ipc_read_subnet_actor_state(&self, subnet_id: &SubnetID, tip_set: &Cid) -> (r: Result<
        IPCReadSubnetActorStateResponse,
        RpcError,
    >)
        ensures
            r matches Err(e) ==> non_validation(e),
    {
        let params = array2(subnet_to_json(subnet_id), tipset_key_json(tip_set));
        let v = self.call("Filecoin.IPCReadSubnetActorState", params)?;
        decode_subnet_actor_state(&v, "subnet actor state response")
    }

    /// Lists the child subnets registered at a gateway. A subnet with no
    /// children is normal: a null listing yields the empty sequence, never an
    /// error.
    pub fn ipc_list_child_subnets(&self, gateway_addr: &Address) -> (r: Result<
        Vec<SubnetInfo>,
        RpcError,
    >)
        ensures
            r matches Err(e) ==> non_validation(e),
    {
        let params = array1(address_to_json(gateway_addr));
        let v = self.call("Filecoin.IPCListChildSubnets", params)?;
        decode_subnet_list(&v, "child subnets response")
    }

    /// Asks whether a validator has voted on the bottom-up checkpoint of a
    /// subnet at an epoch.
    pub fn ipc_validator_has_voted_bottomup(
        &self,
        subnet_id: &SubnetID,
        epoch: ChainEpoch,
        validator: &Address,
    ) -> (r: Result<bool, RpcError>)
        ensures
            r matches Err(e) ==> non_validation(e),
    {
        let params = array3(
            subnet_to_json(subnet_id),
            JsonValue::Int(epoch),
            address_to_json(validator),
        );
        let v = self.call("Filecoin.IPCHasVotedBottomUpCheckpoint", params)?;
        read_bool(&v, "bottom-up vote response")
    }

    /// Asks whether a validator has voted on the top-down checkpoint at a
    /// gateway at an epoch.
    pub fn ipc_validator_has_voted_topdown(
        &self,
        gateway_addr: &Address,
        epoch: ChainEpoch,
        validator: &Address,
    ) -> (r: Result<bool, RpcError>)
        ensures
            r matches Err(e) ==> non_validation(e),
    {
        let params = array3(
            address_to_json(gateway_addr),
            JsonValue::Int(epoch),
            address_to_json(validator),
        );
        let v = self.call("Filecoin.IPCHasVotedTopDownCheckpoint", params)?;
        read_bool(&v, "top-down vote response")
    }

    /// Fetches the top-down messages for a subnet with nonce at least the
    /// given bound, which is passed through exactly; the decode is
    /// all-or-nothing, so a single corrupted envelope fails the whole call.
    pub fn ipc_get_topdown_msgs(
        &self,
        subnet_id: &SubnetID,
        gateway_addr: &Address,
        tip_set: &Cid,
        nonce: u64,
    ) -> (r: Result<Vec<CrossMsg>, RpcError>)
        ensures
            r matches Err(e) ==> non_validation(e),
            r matches Ok(ms) ==> forall|i: int| 0 <= i < ms@.len() ==> (#[trigger] ms@[i]).well_formed(),
    {
        let params = topdown_msgs_params(gateway_addr, subnet_id, tip_set, nonce);
        let v = self.call("Filecoin.IPCGetTopDownMsgsSerialized", params)?;
        decode_crossmsg_list(&v, "cannot decode cross-subnet message envelopes")
    }

    /// Reads a subnet's genesis epoch: the height at which it was born.
    pub fn ipc_get_genesis_epoch_for_subnet(
        &self,
        subnet_id: &SubnetID,
        gateway_addr: &Address,
    ) -> (r: Result<ChainEpoch, RpcError>)
        ensures
            r matches Err(e) ==> non_validation(e),
    {
        let params = array2(address_to_json(gateway_addr), subnet_to_json(subnet_id));
        let v = self.call("Filecoin.IPCGetGenesisEpochForSubnet", params)?;
        read_epoch(&v, "genesis epoch response")
    }

    /// Lists a child subnet's bottom-up checkpoints across an epoch range.
    /// The child must have a parent: that is checked before any transport
    /// call, and a validation error here can mean nothing else. The decode is
    /// all-or-nothing, so a single corrupted envelope fails the whole call
    /// and no partial sequence is ever returned.
    pub fn ipc_list_checkpoints(
        &self,
        subnet_id: &SubnetID,
        from_epoch: ChainEpoch,
        to_epoch: ChainEpoch,
    ) -> (r: Result<Vec<Checkpoint>, RpcError>)
        ensures
            (r matches Err(e) && e is Validation) <==> subnet_id@.len() <= 1,
            subnet_id@.len() <= 1 ==> (r matches Err(e) && e matches RpcError::Validation(m) && m@
                == "the child subnet identifier has no parent"@),
            r matches Ok(cs) ==> forall|i: int| 0 <= i < cs@.len() ==> (#[trigger] cs@[i]).well_formed(),
    {
        if subnet_id.segment_count() <= 1 {
            return Err(
                RpcError::Validation("the child subnet identifier has no parent".to_owned()),
            );
        }
        let params = list_checkpoints_params(subnet_id, from_epoch, to_epoch);
        let v = self.call("Filecoin.IPCListCheckpointsSerialized", params)?;
        decode_checkpoint_list(&v, "cannot decode checkpoint envelopes")
    }
}

} // verus!
