use vstd::prelude::*;
use crate::address::{addr_ok, any_addr_ok, is_addr_ok, is_any_addr};
use crate::amount::{TokenAmount, f64_amount_ok, f64_int_of, integer_from_f64_bits, nano_units_of,
    token_amount_from_f64_bits};
use crate::config::{BackendKind, ConfigSnapshot, SubnetConfig, SubnetConfigV, lookup_entry,
    opt_str_view, lemma_lookup_found};
use crate::errors::RpcError;
use crate::json::{JsonValue, str_field, opt_field, num_field, read_str_field, read_opt_field,
    read_num_field, str_eq};
use crate::pool::SubnetManagerPool;
use crate::subnet_id::{SubnetID, path_ok, path_segs, render, valid_segments,
    lemma_render_injective};

verus! {

/// A request to stake collateral and join a subnet; the collateral is
/// the bit pattern of the binary64 whole-unit value the caller sent.
pub struct JoinSubnetParams {
    pub subnet: String,
    pub from: Option<String>,
    pub collateral: u64,
    pub validator_net_addr: String,
    pub worker_addr: Option<String>,
}

/// A request to kill a subnet.
pub struct KillSubnetParams {
    pub subnet: String,
    pub from: Option<String>,
}

/// A request to stop validating and leave a subnet.
pub struct LeaveSubnetParams {
    pub subnet: String,
    pub from: Option<String>,
}

/// A request for the validator set of a subnet.
pub struct QueryValidatorSetParams {
    pub subnet: String,
}

/// A request naming a subnet and nothing else, as the raw RPC proxy,
/// the child listing and the top-down query take it.
pub struct SubnetParams {
    pub subnet: String,
}

/// A request to create a child subnet under the named parent.
pub struct CreateSubnetParams {
    pub parent: String,
    pub name: String,
}

/// A request to propagate a queued cross-subnet message out of the
/// postbox.
pub struct PropagateParams {
    pub subnet: String,
    pub postbox_msg_id: String,
}

/// A request to send a cross-subnet message; the amount is the bit
/// pattern of the binary64 whole-unit value.
pub struct SendCrossMsgParams {
    pub subnet: String,
    pub from: Option<String>,
    pub to: String,
    pub amount: u64,
}

/// A request to move value between two addresses on the caller's own
/// chain context; no subnet is resolved.
pub struct SendValueParams {
    pub from: String,
    pub to: String,
    pub amount: u64,
}

/// A request to create a key of the given kind in the wallet.
pub struct WalletNewParams {
    pub key_type: String,
}

/// A request to remove an address from one of the two keystores.
pub struct WalletRemoveParams {
    pub wallet_type: String,
    pub address: String,
}

/// A request to import key material into one of the two keystores; the
/// key material itself is opaque to this core.
pub struct WalletImportParams {
    pub wallet_type: String,
    pub key_info: String,
}

/// A request to update a validator's network address.
pub struct SetValidatorNetAddrParams {
    pub subnet: String,
    pub from: Option<String>,
    pub validator_net_addr: String,
}

/// A request for the bottom-up checkpoints of a subnet within an epoch
/// range; the epochs are the bit patterns of the binary64 numbers the
/// transport delivered and must denote whole numbers.
pub struct ListBottomUpCheckpointsParams {
    pub subnet: String,
    pub from_epoch: u64,
    pub to_epoch: u64,
}

/// A request to move value from a parent into a child subnet; the
/// amount is the bit pattern of the binary64 whole-unit value.
pub struct FundParams {
    pub subnet: String,
    pub from: Option<String>,
    pub amount: u64,
}

/// A request to release value from a child subnet back to its parent.
pub struct ReleaseParams {
    pub subnet: String,
    pub from: Option<String>,
    pub amount: u64,
}

/// What a handler decided: the one backend operation the caller should
/// now perform against the resolved parent connection. The decision is
/// complete; performing the operation is plain chain I/O.
#[derive(Debug)]
pub enum ManagerAction {
    JoinSubnet {
        parent: SubnetID,
        subnet: SubnetID,
        from: String,
        collateral: TokenAmount,
        validator_net_addr: String,
        worker_addr: String,
    },
    KillSubnet { parent: SubnetID, subnet: SubnetID, from: String },
    LeaveSubnet { parent: SubnetID, subnet: SubnetID, from: String },
    Fund { parent: SubnetID, subnet: SubnetID, from: String, amount: TokenAmount },
    QueryValidatorSet { subnet: SubnetID },
    Release { parent: SubnetID, subnet: SubnetID, from: String, amount: TokenAmount },
    CreateSubnet { parent: SubnetID, name: String },
    RpcSubnet { subnet: SubnetID },
    Propagate { parent: SubnetID, subnet: SubnetID, postbox_msg_id: String },
    SendCrossMsg { parent: SubnetID, subnet: SubnetID, from: String, to: String, amount: TokenAmount },
    SendValue { from: String, to: String, amount: TokenAmount },
    WalletNew { key_type: String },
    WalletRemove { backend: BackendKind, address: String },
    WalletImport { backend: BackendKind, key_info: String },
    SetValidatorNetAddr { parent: SubnetID, subnet: SubnetID, from: String, validator_net_addr: String },
    ListChildSubnets { subnet: SubnetID },
    ListBottomUpCheckpoints { subnet: SubnetID, from_epoch: u64, to_epoch: u64 },
    LastTopDownExecuted { subnet: SubnetID },
    ReloadConfig,
    WalletBalances,
}

/// Whether the decoded payload holds every field a join request needs.
pub open spec fn join_params_decodable(v: JsonValue) -> bool {
    match v {
        JsonValue::Obj(fs) => {
            &&& str_field(fs@, "subnet"@) is Some
            &&& opt_field(fs@, "from"@) is Some
            &&& num_field(fs@, "collateral"@) is Some
            &&& str_field(fs@, "validator_net_addr"@) is Some
            &&& opt_field(fs@, "worker_addr"@) is Some
        },
        _ => false,
    }
}

/// Decodes a join request payload.
pub fn decode_join_params(v: &JsonValue) -> (r: Result<JoinSubnetParams, RpcError>)
    ensures
        r is Ok <==> join_params_decodable(*v),
        r matches Err(e) ==> e is InvalidParams,
        r matches Ok(p) ==> (v matches JsonValue::Obj(fs) && str_field(fs@, "subnet"@) == Some(
            p.subnet@,
        ) && opt_field(fs@, "from"@) == Some(opt_str_view(p.from)) && num_field(
            fs@,
            "collateral"@,
        ) == Some(p.collateral) && str_field(fs@, "validator_net_addr"@) == Some(
            p.validator_net_addr@,
        ) && opt_field(fs@, "worker_addr"@) == Some(opt_str_view(p.worker_addr))),
{
    match v {
        JsonValue::Obj(fields) => {
            let subnet = match read_str_field(fields, "subnet") {
                Some(s) => s,
                None => {
                    return Err(RpcError::InvalidParams);
                },
            };
            let from = match read_opt_field(fields, "from") {
                Some(o) => o,
                None => {
                    return Err(RpcError::InvalidParams);
                },
            };
            let collateral = match read_num_field(fields, "collateral") {
                Some(b) => b,
                None => {
                    return Err(RpcError::InvalidParams);
                },
            };
            let validator_net_addr = match read_str_field(fields, "validator_net_addr") {
                Some(s) => s,
                None => {
                    return Err(RpcError::InvalidParams);
                },
            };
            let worker_addr = match read_opt_field(fields, "worker_addr") {
                Some(o) => o,
                None => {
                    return Err(RpcError::InvalidParams);
                },
            };
            Ok(JoinSubnetParams { subnet, from, collateral, validator_net_addr, worker_addr })
        },
        _ => Err(RpcError::InvalidParams),
    }
}

/// Whether the decoded payload holds every field a kill request needs.
pub open spec fn kill_params_decodable(v: JsonValue) -> bool {
    match v {
        JsonValue::Obj(fs) => {
            &&& str_field(fs@, "subnet"@) is Some
            &&& opt_field(fs@, "from"@) is Some
        },
        _ => false,
    }
}

/// Decodes a kill request payload.
pub fn decode_kill_params(v: &JsonValue) -> (r: Result<KillSubnetParams, RpcError>)
    ensures
        r is Ok <==> kill_params_decodable(*v),
        r matches Err(e) ==> e is InvalidParams,
        r matches Ok(p) ==> (v matches JsonValue::Obj(fs) && str_field(fs@, "subnet"@) == Some(
            p.subnet@,
        ) && opt_field(fs@, "from"@) == Some(opt_str_view(p.from))),
{
    match v {
        JsonValue::Obj(fields) => {
            let subnet = match read_str_field(fields, "subnet") {
                Some(s) => s,
                None => {
                    return Err(RpcError::InvalidParams);
                },
            };
            let from = match read_opt_field(fields, "from") {
                Some(o) => o,
                None => {
                    return Err(RpcError::InvalidParams);
                },
            };
            Ok(KillSubnetParams { subnet, from })
        },
        _ => Err(RpcError::InvalidParams),
    }
}

/// Whether the decoded payload holds every field a leave request needs.
pub open spec fn leave_params_decodable(v: JsonValue) -> bool {
    match v {
        JsonValue::Obj(fs) => {
            &&& str_field(fs@, "subnet"@) is Some
            &&& opt_field(fs@, "from"@) is Some
        },
        _ => false,
    }
}

/// Decodes a leave request payload.
pub fn decode_leave_params(v: &JsonValue) -> (r: Result<LeaveSubnetParams, RpcError>)
    ensures
        r is Ok <==> leave_params_decodable(*v),
        r matches Err(e) ==> e is InvalidParams,
        r matches Ok(p) ==> (v matches JsonValue::Obj(fs) && str_field(fs@, "subnet"@) == Some(
            p.subnet@,
        ) && opt_field(fs@, "from"@) == Some(opt_str_view(p.from))),
{
    match v {
        JsonValue::Obj(fields) => {
            let subnet = match read_str_field(fields, "subnet") {
                Some(s) => s,
                None => {
                    return Err(RpcError::InvalidParams);
                },
            };
            let from = match read_opt_field(fields, "from") {
                Some(o) => o,
                None => {
                    return Err(RpcError::InvalidParams);
                },
            };
            Ok(LeaveSubnetParams { subnet, from })
        },
        _ => Err(RpcError::InvalidParams),
    }
}

/// Whether the decoded payload holds every field a fund or release
/// request needs.
pub open spec fn amount_params_decodable(v: JsonValue) -> bool {
    match v {
        JsonValue::Obj(fs) => {
            &&& str_field(fs@, "subnet"@) is Some
            &&& opt_field(fs@, "from"@) is Some
            &&& num_field(fs@, "amount"@) is Some
        },
        _ => false,
    }
}

/// Decodes a fund request payload.
pub fn decode_fund_params(v: &JsonValue) -> (r: Result<FundParams, RpcError>)
    ensures
        r is Ok <==> amount_params_decodable(*v),
        r matches Err(e) ==> e is InvalidParams,
        r matches Ok(p) ==> (v matches JsonValue::Obj(fs) && str_field(fs@, "subnet"@) == Some(
            p.subnet@,
        ) && opt_field(fs@, "from"@) == Some(opt_str_view(p.from)) && num_field(fs@, "amount"@)
            == Some(p.amount)),
{
    match v {
        JsonValue::Obj(fields) => {
            let subnet = match read_str_field(fields, "subnet") {
                Some(s) => s,
                None => {
                    return Err(RpcError::InvalidParams);
                },
            };
            let from = match read_opt_field(fields, "from") {
                Some(o) => o,
                None => {
                    return Err(RpcError::InvalidParams);
                },
            };
            let amount = match read_num_field(fields, "amount") {
                Some(b) => b,
                None => {
                    return Err(RpcError::InvalidParams);
                },
            };
            Ok(FundParams { subnet, from, amount })
        },
        _ => Err(RpcError::InvalidParams),
    }
}

/// Decodes a release request payload.
pub fn decode_release_params(v: &JsonValue) -> (r: Result<ReleaseParams, RpcError>)
    ensures
        r is Ok <==> amount_params_decodable(*v),
        r matches Err(e) ==> e is InvalidParams,
        r matches Ok(p) ==> (v matches JsonValue::Obj(fs) && str_field(fs@, "subnet"@) == Some(
            p.subnet@,
        ) && opt_field(fs@, "from"@) == Some(opt_str_view(p.from)) && num_field(fs@, "amount"@)
            == Some(p.amount)),
{
    match decode_fund_params(v) {
        Ok(p) => Ok(ReleaseParams { subnet: p.subnet, from: p.from, amount: p.amount }),
        Err(e) => Err(e),
    }
}

/// Whether the decoded payload holds the field a validator-set query
/// needs.
pub open spec fn query_params_decodable(v: JsonValue) -> bool {
    match v {
        JsonValue::Obj(fs) => str_field(fs@, "subnet"@) is Some,
        _ => false,
    }
}

/// Decodes a validator-set query payload.
pub fn decode_query_params(v: &JsonValue) -> (r: Result<QueryValidatorSetParams, RpcError>)
    ensures
        r is Ok <==> query_params_decodable(*v),
        r matches Err(e) ==> e is InvalidParams,
        r matches Ok(p) ==> (v matches JsonValue::Obj(fs) && str_field(fs@, "subnet"@) == Some(
            p.subnet@,
        )),
{
    match v {
        JsonValue::Obj(fields) => {
            let subnet = match read_str_field(fields, "subnet") {
                Some(s) => s,
                None => {
                    return Err(RpcError::InvalidParams);
                },
            };
            Ok(QueryValidatorSetParams { subnet })
        },
        _ => Err(RpcError::InvalidParams),
    }
}


/// Whether the decoded payload holds the field a subnet-only request
/// needs.
pub open spec fn subnet_params_decodable(v: JsonValue) -> bool {
    match v {
        JsonValue::Obj(fs) => str_field(fs@, "subnet"@) is Some,
        _ => false,
    }
}

/// Decodes a payload naming only a subnet.
pub fn decode_subnet_params(v: &JsonValue) -> (r: Result<SubnetParams, RpcError>)
    ensures
        r is Ok <==> subnet_params_decodable(*v),
        r matches Err(e) ==> e is InvalidParams,
        r matches Ok(p) ==> (v matches JsonValue::Obj(fs) && str_field(fs@, "subnet"@) == Some(
            p.subnet@,
        )),
{
    match v {
        JsonValue::Obj(fields) => {
            let subnet = match read_str_field(fields, "subnet") {
                Some(s) => s,
                None => {
                    return Err(RpcError::InvalidParams);
                },
            };
            Ok(SubnetParams { subnet })
        },
        _ => Err(RpcError::InvalidParams),
    }
}

/// Whether the decoded payload holds every field a create request
/// needs.
pub open spec fn create_params_decodable(v: JsonValue) -> bool {
    match v {
        JsonValue::Obj(fs) => {
            &&& str_field(fs@, "parent"@) is Some
            &&& str_field(fs@, "name"@) is Some
        },
        _ => false,
    }
}

/// Decodes a create request payload.
pub fn decode_create_params(v: &JsonValue) -> (r: Result<CreateSubnetParams, RpcError>)
    ensures
        r is Ok <==> create_params_decodable(*v),
        r matches Err(e) ==> e is InvalidParams,
        r matches Ok(p) ==> (v matches JsonValue::Obj(fs) && str_field(fs@, "parent"@) == Some(
            p.parent@,
        ) && str_field(fs@, "name"@) == Some(p.name@)),
{
    match v {
        JsonValue::Obj(fields) => {
            let parent = match read_str_field(fields, "parent") {
                Some(s) => s,
                None => {
                    return Err(RpcError::InvalidParams);
                },
            };
            let name = match read_str_field(fields, "name") {
                Some(s) => s,
                None => {
                    return Err(RpcError::InvalidParams);
                },
            };
            Ok(CreateSubnetParams { parent, name })
        },
        _ => Err(RpcError::InvalidParams),
    }
}

/// Whether the decoded payload holds every field a propagate request
/// needs.
pub open spec fn propagate_params_decodable(v: JsonValue) -> bool {
    match v {
        JsonValue::Obj(fs) => {
            &&& str_field(fs@, "subnet"@) is Some
            &&& str_field(fs@, "postbox_msg_id"@) is Some
        },
        _ => false,
    }
}

/// Decodes a propagate request payload.
pub fn decode_propagate_params(v: &JsonValue) -> (r: Result<PropagateParams, RpcError>)
    ensures
        r is Ok <==> propagate_params_decodable(*v),
        r matches Err(e) ==> e is InvalidParams,
        r matches Ok(p) ==> (v matches JsonValue::Obj(fs) && str_field(fs@, "subnet"@) == Some(
            p.subnet@,
        ) && str_field(fs@, "postbox_msg_id"@) == Some(p.postbox_msg_id@)),
{
    match v {
        JsonValue::Obj(fields) => {
            let subnet = match read_str_field(fields, "subnet") {
                Some(s) => s,
                None => {
                    return Err(RpcError::InvalidParams);
                },
            };
            let postbox_msg_id = match read_str_field(fields, "postbox_msg_id") {
                Some(s) => s,
                None => {
                    return Err(RpcError::InvalidParams);
                },
            };
            Ok(PropagateParams { subnet, postbox_msg_id })
        },
        _ => Err(RpcError::InvalidParams),
    }
}

/// Whether the decoded payload holds every field a cross-message send
/// needs.
pub open spec fn send_cross_params_decodable(v: JsonValue) -> bool {
    match v {
        JsonValue::Obj(fs) => {
            &&& str_field(fs@, "subnet"@) is Some
            &&& opt_field(fs@, "from"@) is Some
            &&& str_field(fs@, "to"@) is Some
            &&& num_field(fs@, "amount"@) is Some
        },
        _ => false,
    }
}

/// Decodes a cross-message send payload.
pub fn decode_send_cross_params(v: &JsonValue) -> (r: Result<SendCrossMsgParams, RpcError>)
    ensures
        r is Ok <==> send_cross_params_decodable(*v),
        r matches Err(e) ==> e is InvalidParams,
        r matches Ok(p) ==> (v matches JsonValue::Obj(fs) && str_field(fs@, "subnet"@) == Some(
            p.subnet@,
        ) && opt_field(fs@, "from"@) == Some(opt_str_view(p.from)) && str_field(fs@, "to"@)
            == Some(p.to@) && num_field(fs@, "amount"@) == Some(p.amount)),
{
    match v {
        JsonValue::Obj(fields) => {
            let subnet = match read_str_field(fields, "subnet") {
                Some(s) => s,
                None => {
                    return Err(RpcError::InvalidParams);
                },
            };
            let from = match read_opt_field(fields, "from") {
                Some(o) => o,
                None => {
                    return Err(RpcError::InvalidParams);
                },
            };
            let to = match read_str_field(fields, "to") {
                Some(s) => s,
                None => {
                    return Err(RpcError::InvalidParams);
                },
            };
            let amount = match read_num_field(fields, "amount") {
                Some(b) => b,
                None => {
                    return Err(RpcError::InvalidParams);
                },
            };
            Ok(SendCrossMsgParams { subnet, from, to, amount })
        },
        _ => Err(RpcError::InvalidParams),
    }
}

/// Whether the decoded payload holds every field a value send needs.
pub open spec fn send_value_params_decodable(v: JsonValue) -> bool {
    match v {
        JsonValue::Obj(fs) => {
            &&& str_field(fs@, "from"@) is Some
            &&& str_field(fs@, "to"@) is Some
            &&& num_field(fs@, "amount"@) is Some
        },
        _ => false,
    }
}

/// Decodes a value send payload.
pub fn decode_send_value_params(v: &JsonValue) -> (r: Result<SendValueParams, RpcError>)
    ensures
        r is Ok <==> send_value_params_decodable(*v),
        r matches Err(e) ==> e is InvalidParams,
        r matches Ok(p) ==> (v matches JsonValue::Obj(fs) && str_field(fs@, "from"@) == Some(
            p.from@,
        ) && str_field(fs@, "to"@) == Some(p.to@) && num_field(fs@, "amount"@) == Some(p.amount)),
{
    match v {
        JsonValue::Obj(fields) => {
            let from = match read_str_field(fields, "from") {
                Some(s) => s,
                None => {
                    return Err(RpcError::InvalidParams);
                },
            };
            let to = match read_str_field(fields, "to") {
                Some(s) => s,
                None => {
                    return Err(RpcError::InvalidParams);
                },
            };
            let amount = match read_num_field(fields, "amount") {
                Some(b) => b,
                None => {
                    return Err(RpcError::InvalidParams);
                },
            };
            Ok(SendValueParams { from, to, amount })
        },
        _ => Err(RpcError::InvalidParams),
    }
}

/// Whether the decoded payload holds the field a new-key request needs.
pub open spec fn wallet_new_params_decodable(v: JsonValue) -> bool {
    match v {
        JsonValue::Obj(fs) => str_field(fs@, "key_type"@) is Some,
        _ => false,
    }
}

/// Decodes a new-key request payload.
pub fn decode_wallet_new_params(v: &JsonValue) -> (r: Result<WalletNewParams, RpcError>)
    ensures
        r is Ok <==> wallet_new_params_decodable(*v),
        r matches Err(e) ==> e is InvalidParams,
        r matches Ok(p) ==> (v matches JsonValue::Obj(fs) && str_field(fs@, "key_type"@) == Some(
            p.key_type@,
        )),
{
    match v {
        JsonValue::Obj(fields) => {
            let key_type = match read_str_field(fields, "key_type") {
                Some(s) => s,
                None => {
                    return Err(RpcError::InvalidParams);
                },
            };
            Ok(WalletNewParams { key_type })
        },
        _ => Err(RpcError::InvalidParams),
    }
}

/// Whether the decoded payload holds every field a key-removal request
/// needs.
pub open spec fn wallet_remove_params_decodable(v: JsonValue) -> bool {
    match v {
        JsonValue::Obj(fs) => {
            &&& str_field(fs@, "wallet_type"@) is Some
            &&& str_field(fs@, "address"@) is Some
        },
        _ => false,
    }
}

/// Decodes a key-removal request payload.
pub fn decode_wallet_remove_params(v: &JsonValue) -> (r: Result<WalletRemoveParams, RpcError>)
    ensures
        r is Ok <==> wallet_remove_params_decodable(*v),
        r matches Err(e) ==> e is InvalidParams,
        r matches Ok(p) ==> (v matches JsonValue::Obj(fs) && str_field(fs@, "wallet_type"@)
            == Some(p.wallet_type@) && str_field(fs@, "address"@) == Some(p.address@)),
{
    match v {
        JsonValue::Obj(fields) => {
            let wallet_type = match read_str_field(fields, "wallet_type") {
                Some(s) => s,
                None => {
                    return Err(RpcError::InvalidParams);
                },
            };
            let address = match read_str_field(fields, "address") {
                Some(s) => s,
                None => {
                    return Err(RpcError::InvalidParams);
                },
            };
            Ok(WalletRemoveParams { wallet_type, address })
        },
        _ => Err(RpcError::InvalidParams),
    }
}

/// Whether the decoded payload holds every field a key-import request
/// needs.
pub open spec fn wallet_import_params_decodable(v: JsonValue) -> bool {
    match v {
        JsonValue::Obj(fs) => {
            &&& str_field(fs@, "wallet_type"@) is Some
            &&& str_field(fs@, "key_info"@) is Some
        },
        _ => false,
    }
}

/// Decodes a key-import request payload.
pub fn decode_wallet_import_params(v: &JsonValue) -> (r: Result<WalletImportParams, RpcError>)
    ensures
        r is Ok <==> wallet_import_params_decodable(*v),
        r matches Err(e) ==> e is InvalidParams,
        r matches Ok(p) ==> (v matches JsonValue::Obj(fs) && str_field(fs@, "wallet_type"@)
            == Some(p.wallet_type@) && str_field(fs@, "key_info"@) == Some(p.key_info@)),
{
    match v {
        JsonValue::Obj(fields) => {
            let wallet_type = match read_str_field(fields, "wallet_type") {
                Some(s) => s,
                None => {
                    return Err(RpcError::InvalidParams);
                },
            };
            let key_info = match read_str_field(fields, "key_info") {
                Some(s) => s,
                None => {
                    return Err(RpcError::InvalidParams);
                },
            };
            Ok(WalletImportParams { wallet_type, key_info })
        },
        _ => Err(RpcError::InvalidParams),
    }
}

/// Whether the decoded payload holds every field a net-address update
/// needs.
pub open spec fn setaddr_params_decodable(v: JsonValue) -> bool {
    match v {
        JsonValue::Obj(fs) => {
            &&& str_field(fs@, "subnet"@) is Some
            &&& opt_field(fs@, "from"@) is Some
            &&& str_field(fs@, "validator_net_addr"@) is Some
        },
        _ => false,
    }
}

/// Decodes a net-address update payload.
pub fn decode_setaddr_params(v: &JsonValue) -> (r: Result<SetValidatorNetAddrParams, RpcError>)
    ensures
        r is Ok <==> setaddr_params_decodable(*v),
        r matches Err(e) ==> e is InvalidParams,
        r matches Ok(p) ==> (v matches JsonValue::Obj(fs) && str_field(fs@, "subnet"@) == Some(
            p.subnet@,
        ) && opt_field(fs@, "from"@) == Some(opt_str_view(p.from)) && str_field(
            fs@,
            "validator_net_addr"@,
        ) == Some(p.validator_net_addr@)),
{
    match v {
        JsonValue::Obj(fields) => {
            let subnet = match read_str_field(fields, "subnet") {
                Some(s) => s,
                None => {
                    return Err(RpcError::InvalidParams);
                },
            };
            let from = match read_opt_field(fields, "from") {
                Some(o) => o,
                None => {
                    return Err(RpcError::InvalidParams);
                },
            };
            let validator_net_addr = match read_str_field(fields, "validator_net_addr") {
                Some(s) => s,
                None => {
                    return Err(RpcError::InvalidParams);
                },
            };
            Ok(SetValidatorNetAddrParams { subnet, from, validator_net_addr })
        },
        _ => Err(RpcError::InvalidParams),
    }
}

/// Whether the decoded payload holds every field a checkpoint listing
/// needs; the epoch bounds must denote whole numbers.
pub open spec fn checkpoints_params_decodable(v: JsonValue) -> bool {
    match v {
        JsonValue::Obj(fs) => {
            &&& str_field(fs@, "subnet"@) is Some
            &&& (num_field(fs@, "from_epoch"@) matches Some(b) && f64_int_of(b) is Some)
            &&& (num_field(fs@, "to_epoch"@) matches Some(b) && f64_int_of(b) is Some)
        },
        _ => false,
    }
}

/// Decodes a checkpoint listing payload, turning the epoch bounds into
/// whole numbers.
pub fn decode_checkpoints_params(v: &JsonValue) -> (r: Result<
    ListBottomUpCheckpointsParams,
    RpcError,
>)
    ensures
        r is Ok <==> checkpoints_params_decodable(*v),
        r matches Err(e) ==> e is InvalidParams,
        r matches Ok(p) ==> (v matches JsonValue::Obj(fs) && str_field(fs@, "subnet"@) == Some(
            p.subnet@,
        ) && (num_field(fs@, "from_epoch"@) matches Some(b) && f64_int_of(b) == Some(
            p.from_epoch,
        )) && (num_field(fs@, "to_epoch"@) matches Some(b) && f64_int_of(b) == Some(p.to_epoch))),
{
    match v {
        JsonValue::Obj(fields) => {
            let subnet = match read_str_field(fields, "subnet") {
                Some(s) => s,
                None => {
                    return Err(RpcError::InvalidParams);
                },
            };
            let from_bits = match read_num_field(fields, "from_epoch") {
                Some(b) => b,
                None => {
                    return Err(RpcError::InvalidParams);
                },
            };
            let from_epoch = match integer_from_f64_bits(from_bits) {
                Some(n) => n,
                None => {
                    return Err(RpcError::InvalidParams);
                },
            };
            let to_bits = match read_num_field(fields, "to_epoch") {
                Some(b) => b,
                None => {
                    return Err(RpcError::InvalidParams);
                },
            };
            let to_epoch = match integer_from_f64_bits(to_bits) {
                Some(n) => n,
                None => {
                    return Err(RpcError::InvalidParams);
                },
            };
            Ok(ListBottomUpCheckpointsParams { subnet, from_epoch, to_epoch })
        },
        _ => Err(RpcError::InvalidParams),
    }
}

/// The key kinds the wallet can create.
pub open spec fn key_type_ok(s: Seq<char>) -> bool {
    s == "bls"@ || s == "secp256k1"@ || s == "evm"@
}

/// Which keystore a wallet request names, if the name is known.
pub open spec fn wallet_backend_of(s: Seq<char>) -> Option<BackendKind> {
    if s == "fvm"@ {
        Some(BackendKind::Fvm)
    } else if s == "evm"@ {
        Some(BackendKind::Evm)
    } else {
        None
    }
}

/// Resolves the named keystore.
pub fn parse_wallet_backend(s: &str) -> (r: Option<BackendKind>)
    ensures
        r == wallet_backend_of(s@),
{
    if str_eq(s, "fvm") {
        Some(BackendKind::Fvm)
    } else if str_eq(s, "evm") {
        Some(BackendKind::Evm)
    } else {
        None
    }
}

/// Re-validates that a connection is bound to the subnet entry the
/// request resolved to.
pub fn check_subnet(conn_cfg: &SubnetConfig, expected: &SubnetID) -> (r: Result<(), RpcError>)
    ensures
        r is Ok <==> conn_cfg@.id == expected@,
        r matches Err(e) ==> e is SubnetMismatch,
{
    if conn_cfg.id.equals(expected) {
        Ok(())
    } else {
        Err(RpcError::SubnetMismatch)
    }
}

/// Whether the sender named by the request (or, failing that, the
/// entry's default account) can be resolved.
pub open spec fn from_ok(e: SubnetConfigV, fromv: Option<Seq<char>>) -> bool {
    match fromv {
        Some(f) => addr_ok(e.backend, f),
        None => e.accounts.len() > 0,
    }
}

/// The resolved sender address.
pub open spec fn resolved_from(e: SubnetConfigV, fromv: Option<Seq<char>>) -> Seq<char> {
    match fromv {
        Some(f) => f,
        None => e.accounts[0],
    }
}

/// Resolves the sender: a supplied address is validated for the
/// entry's backend; with none supplied the entry's first account is the
/// default.
pub fn parse_from(conn_cfg: &SubnetConfig, from: &Option<String>) -> (r: Result<String, RpcError>)
    ensures
        from_ok(conn_cfg@, opt_str_view(*from)) ==> (r matches Ok(a) && a@ == resolved_from(
            conn_cfg@,
            opt_str_view(*from),
        )),
        !from_ok(conn_cfg@, opt_str_view(*from)) ==> (r matches Err(e) && (match *from {
            Some(_) => e is ParseError,
            None => e is NoDefaultAccount,
        })),
{
    match from {
        Some(s) => {
            if is_addr_ok(conn_cfg.backend, s.as_str()) {
                Ok(s.clone())
            } else {
                Err(RpcError::ParseError)
            }
        },
        None => {
            if self_accounts_len(conn_cfg) > 0 {
                Ok(conn_cfg.accounts[0].clone())
            } else {
                Err(RpcError::NoDefaultAccount)
            }
        },
    }
}

/// How many accounts the entry lists.
fn self_accounts_len(conn_cfg: &SubnetConfig) -> (r: usize)
    ensures
        r == conn_cfg@.accounts.len(),
{
    conn_cfg.accounts.len()
}

/// Whether a supplied worker address is acceptable; with none supplied
/// the sender serves as the worker.
pub open spec fn worker_ok(e: SubnetConfigV, wv: Option<Seq<char>>) -> bool {
    match wv {
        Some(w) => addr_ok(e.backend, w),
        None => true,
    }
}

/// The resolved worker address.
pub open spec fn resolved_worker(
    e: SubnetConfigV,
    fromv: Option<Seq<char>>,
    wv: Option<Seq<char>>,
) -> Seq<char> {
    match wv {
        Some(w) => w,
        None => resolved_from(e, fromv),
    }
}

/// The decision a join request must come to, given the snapshot, the
/// pool before and after, and the decoded request fields.
pub open spec fn join_decision(
    cfgv: Seq<SubnetConfigV>,
    oldp: Seq<SubnetConfigV>,
    newp: Seq<SubnetConfigV>,
    subnetv: Seq<char>,
    fromv: Option<Seq<char>>,
    collateral: u64,
    vnav: Seq<char>,
    wv: Option<Seq<char>>,
    r: Result<ManagerAction, RpcError>,
) -> bool {
    &&& (!path_ok(subnetv) ==> (r matches Err(e) && e is ParseError) && newp == oldp)
    &&& (path_ok(subnetv) && path_segs(subnetv).len() == 1 ==> (r matches Err(e)
        && e is NoParentFound) && newp == oldp)
    &&& (path_ok(subnetv) && path_segs(subnetv).len() > 1 ==> {
        let parent = path_segs(subnetv).drop_last();
        &&& lookup_entry(newp, parent) == lookup_entry(cfgv, parent)
        &&& (forall|k: Seq<Seq<char>>|
            k != parent ==> #[trigger] lookup_entry(newp, k) == lookup_entry(oldp, k))
        &&& (lookup_entry(cfgv, parent) is None ==> (r matches Err(e)
            && e is ParentSubnetNotFound))
        &&& (lookup_entry(cfgv, parent) matches Some(e) ==> {
            &&& (!from_ok(e, fromv) ==> (r matches Err(err) && (match fromv {
                Some(_) => err is ParseError,
                None => err is NoDefaultAccount,
            })))
            &&& (from_ok(e, fromv) && !worker_ok(e, wv) ==> (r matches Err(err)
                && err is ParseError))
            &&& (from_ok(e, fromv) && worker_ok(e, wv) && !f64_amount_ok(collateral) ==> (
            r matches Err(err) && err is InvalidAmount))
            &&& (from_ok(e, fromv) && worker_ok(e, wv) && f64_amount_ok(collateral) ==> (
            r matches Ok(a) && a matches ManagerAction::JoinSubnet {
                parent: ap,
                subnet: asub,
                from: af,
                collateral: ac,
                validator_net_addr: av,
                worker_addr: aw,
            } && ap@ == path_segs(subnetv).drop_last() && asub@ == path_segs(subnetv) && af@
                == resolved_from(e, fromv) && ac.nano == nano_units_of(collateral) && av@ == vnav
                && aw@ == resolved_worker(e, fromv, wv)))
        })
    })
}

/// The decision a kill request must come to.
pub open spec fn kill_decision(
    cfgv: Seq<SubnetConfigV>,
    oldp: Seq<SubnetConfigV>,
    newp: Seq<SubnetConfigV>,
    subnetv: Seq<char>,
    fromv: Option<Seq<char>>,
    r: Result<ManagerAction, RpcError>,
) -> bool {
    &&& (!path_ok(subnetv) ==> (r matches Err(e) && e is ParseError) && newp == oldp)
    &&& (path_ok(subnetv) && path_segs(subnetv).len() == 1 ==> (r matches Err(e)
        && e is NoParentFound) && newp == oldp)
    &&& (path_ok(subnetv) && path_segs(subnetv).len() > 1 ==> {
        let parent = path_segs(subnetv).drop_last();
        &&& lookup_entry(newp, parent) == lookup_entry(cfgv, parent)
        &&& (forall|k: Seq<Seq<char>>|
            k != parent ==> #[trigger] lookup_entry(newp, k) == lookup_entry(oldp, k))
        &&& (lookup_entry(cfgv, parent) is None ==> (r matches Err(e)
            && e is ParentSubnetNotFound))
        &&& (lookup_entry(cfgv, parent) matches Some(e) ==> {
            &&& (!from_ok(e, fromv) ==> (r matches Err(err) && (match fromv {
                Some(_) => err is ParseError,
                None => err is NoDefaultAccount,
            })))
            &&& (from_ok(e, fromv) ==> (r matches Ok(a) && a matches ManagerAction::KillSubnet {
                parent: ap,
                subnet: asub,
                from: af,
            } && ap@ == path_segs(subnetv).drop_last() && asub@ == path_segs(subnetv) && af@
                == resolved_from(e, fromv)))
        })
    })
}

/// The decision a leave request must come to; leaving follows the same
/// parent-resolution path as killing, and results in the leave
/// operation.
pub open spec fn leave_decision(
    cfgv: Seq<SubnetConfigV>,
    oldp: Seq<SubnetConfigV>,
    newp: Seq<SubnetConfigV>,
    subnetv: Seq<char>,
    fromv: Option<Seq<char>>,
    r: Result<ManagerAction, RpcError>,
) -> bool {
    &&& (!path_ok(subnetv) ==> (r matches Err(e) && e is ParseError) && newp == oldp)
    &&& (path_ok(subnetv) && path_segs(subnetv).len() == 1 ==> (r matches Err(e)
        && e is NoParentFound) && newp == oldp)
    &&& (path_ok(subnetv) && path_segs(subnetv).len() > 1 ==> {
        let parent = path_segs(subnetv).drop_last();
        &&& lookup_entry(newp, parent) == lookup_entry(cfgv, parent)
        &&& (forall|k: Seq<Seq<char>>|
            k != parent ==> #[trigger] lookup_entry(newp, k) == lookup_entry(oldp, k))
        &&& (lookup_entry(cfgv, parent) is None ==> (r matches Err(e)
            && e is ParentSubnetNotFound))
        &&& (lookup_entry(cfgv, parent) matches Some(e) ==> {
            &&& (!from_ok(e, fromv) ==> (r matches Err(err) && (match fromv {
                Some(_) => err is ParseError,
                None => err is NoDefaultAccount,
            })))
            &&& (from_ok(e, fromv) ==> (r matches Ok(a) && a matches ManagerAction::LeaveSubnet {
                parent: ap,
                subnet: asub,
                from: af,
            } && ap@ == path_segs(subnetv).drop_last() && asub@ == path_segs(subnetv) && af@
                == resolved_from(e, fromv)))
        })
    })
}

/// The common prefix of every value-move decision, and whether the
/// decision ends in the given sender and amount; the action variant is
/// matched by the caller.
pub open spec fn value_move_decision(
    cfgv: Seq<SubnetConfigV>,
    oldp: Seq<SubnetConfigV>,
    newp: Seq<SubnetConfigV>,
    subnetv: Seq<char>,
    fromv: Option<Seq<char>>,
    amount: u64,
    r: Result<ManagerAction, RpcError>,
    fund: bool,
) -> bool {
    &&& (!path_ok(subnetv) ==> (r matches Err(e) && e is ParseError) && newp == oldp)
    &&& (path_ok(subnetv) && path_segs(subnetv).len() == 1 ==> (r matches Err(e)
        && e is NoParentFound) && newp == oldp)
    &&& (path_ok(subnetv) && path_segs(subnetv).len() > 1 ==> {
        let parent = path_segs(subnetv).drop_last();
        &&& lookup_entry(newp, parent) == lookup_entry(cfgv, parent)
        &&& (forall|k: Seq<Seq<char>>|
            k != parent ==> #[trigger] lookup_entry(newp, k) == lookup_entry(oldp, k))
        &&& (lookup_entry(cfgv, parent) is None ==> (r matches Err(e)
            && e is ParentSubnetNotFound))
        &&& (lookup_entry(cfgv, parent) matches Some(e) ==> {
            &&& (!from_ok(e, fromv) ==> (r matches Err(err) && (match fromv {
                Some(_) => err is ParseError,
                None => err is NoDefaultAccount,
            })))
            &&& (from_ok(e, fromv) && !f64_amount_ok(amount) ==> (r matches Err(err)
                && err is InvalidAmount))
            &&& (from_ok(e, fromv) && f64_amount_ok(amount) && fund ==> (r matches Ok(a)
                && a matches ManagerAction::Fund { parent: ap, subnet: asub, from: af, amount: aa }
                && ap@ == path_segs(subnetv).drop_last() && asub@ == path_segs(subnetv) && af@
                == resolved_from(e, fromv) && aa.nano == nano_units_of(amount)))
            &&& (from_ok(e, fromv) && f64_amount_ok(amount) && !fund ==> (r matches Ok(a)
                && a matches ManagerAction::Release {
                parent: ap,
                subnet: asub,
                from: af,
                amount: aa,
            } && ap@ == path_segs(subnetv).drop_last() && asub@ == path_segs(subnetv) && af@
                == resolved_from(e, fromv) && aa.nano == nano_units_of(amount)))
        })
    })
}

/// The decision a validator-set query must come to: unlike the
/// parent-targeted operations it resolves the named subnet itself.
pub open spec fn query_decision(
    cfgv: Seq<SubnetConfigV>,
    oldp: Seq<SubnetConfigV>,
    newp: Seq<SubnetConfigV>,
    subnetv: Seq<char>,
    r: Result<ManagerAction, RpcError>,
) -> bool {
    &&& (!path_ok(subnetv) ==> (r matches Err(e) && e is ParseError) && newp == oldp)
    &&& (path_ok(subnetv) ==> {
        let target = path_segs(subnetv);
        &&& lookup_entry(newp, target) == lookup_entry(cfgv, target)
        &&& (forall|k: Seq<Seq<char>>|
            k != target ==> #[trigger] lookup_entry(newp, k) == lookup_entry(oldp, k))
        &&& (lookup_entry(cfgv, target) is None ==> (r matches Err(e) && e is SubnetNotFound))
        &&& (lookup_entry(cfgv, target) is Some ==> (r matches Ok(a)
            && a matches ManagerAction::QueryValidatorSet { subnet: asub } && asub@ == path_segs(
            subnetv,
        )))
    })
}


/// The decision a create request must come to: the request names the
/// parent chain directly, so no parent is computed.
pub open spec fn create_decision(
    cfgv: Seq<SubnetConfigV>,
    oldp: Seq<SubnetConfigV>,
    newp: Seq<SubnetConfigV>,
    parentv: Seq<char>,
    namev: Seq<char>,
    r: Result<ManagerAction, RpcError>,
) -> bool {
    &&& (!path_ok(parentv) ==> (r matches Err(e) && e is ParseError) && newp == oldp)
    &&& (path_ok(parentv) ==> {
        let target = path_segs(parentv);
        &&& lookup_entry(newp, target) == lookup_entry(cfgv, target)
        &&& (forall|k: Seq<Seq<char>>|
            k != target ==> #[trigger] lookup_entry(newp, k) == lookup_entry(oldp, k))
        &&& (lookup_entry(cfgv, target) is None ==> (r matches Err(e)
            && e is ParentSubnetNotFound))
        &&& (lookup_entry(cfgv, target) is Some ==> (r matches Ok(a)
            && a matches ManagerAction::CreateSubnet { parent: ap, name: an } && ap@ == path_segs(
            parentv,
        ) && an@ == namev))
    })
}

/// The decision a raw subnet RPC must come to: the named subnet itself
/// is resolved and the call is forwarded to its connection.
pub open spec fn rpc_decision(
    cfgv: Seq<SubnetConfigV>,
    oldp: Seq<SubnetConfigV>,
    newp: Seq<SubnetConfigV>,
    subnetv: Seq<char>,
    r: Result<ManagerAction, RpcError>,
) -> bool {
    &&& (!path_ok(subnetv) ==> (r matches Err(e) && e is ParseError) && newp == oldp)
    &&& (path_ok(subnetv) ==> {
        let target = path_segs(subnetv);
        &&& lookup_entry(newp, target) == lookup_entry(cfgv, target)
        &&& (forall|k: Seq<Seq<char>>|
            k != target ==> #[trigger] lookup_entry(newp, k) == lookup_entry(oldp, k))
        &&& (lookup_entry(cfgv, target) is None ==> (r matches Err(e) && e is SubnetNotFound))
        &&& (lookup_entry(cfgv, target) is Some ==> (r matches Ok(a)
            && a matches ManagerAction::RpcSubnet { subnet: asub } && asub@ == path_segs(subnetv)))
    })
}

/// The decision a child-subnet listing must come to.
pub open spec fn list_child_decision(
    cfgv: Seq<SubnetConfigV>,
    oldp: Seq<SubnetConfigV>,
    newp: Seq<SubnetConfigV>,
    subnetv: Seq<char>,
    r: Result<ManagerAction, RpcError>,
) -> bool {
    &&& (!path_ok(subnetv) ==> (r matches Err(e) && e is ParseError) && newp == oldp)
    &&& (path_ok(subnetv) ==> {
        let target = path_segs(subnetv);
        &&& lookup_entry(newp, target) == lookup_entry(cfgv, target)
        &&& (forall|k: Seq<Seq<char>>|
            k != target ==> #[trigger] lookup_entry(newp, k) == lookup_entry(oldp, k))
        &&& (lookup_entry(cfgv, target) is None ==> (r matches Err(e) && e is SubnetNotFound))
        &&& (lookup_entry(cfgv, target) is Some ==> (r matches Ok(a)
            && a matches ManagerAction::ListChildSubnets { subnet: asub } && asub@ == path_segs(
            subnetv,
        )))
    })
}

/// The decision a top-down execution query must come to.
pub open spec fn last_topdown_decision(
    cfgv: Seq<SubnetConfigV>,
    oldp: Seq<SubnetConfigV>,
    newp: Seq<SubnetConfigV>,
    subnetv: Seq<char>,
    r: Result<ManagerAction, RpcError>,
) -> bool {
    &&& (!path_ok(subnetv) ==> (r matches Err(e) && e is ParseError) && newp == oldp)
    &&& (path_ok(subnetv) ==> {
        let target = path_segs(subnetv);
        &&& lookup_entry(newp, target) == lookup_entry(cfgv, target)
        &&& (forall|k: Seq<Seq<char>>|
            k != target ==> #[trigger] lookup_entry(newp, k) == lookup_entry(oldp, k))
        &&& (lookup_entry(cfgv, target) is None ==> (r matches Err(e) && e is SubnetNotFound))
        &&& (lookup_entry(cfgv, target) is Some ==> (r matches Ok(a)
            && a matches ManagerAction::LastTopDownExecuted { subnet: asub } && asub@ == path_segs(
            subnetv,
        )))
    })
}

/// The decision a checkpoint listing must come to.
pub open spec fn checkpoints_decision(
    cfgv: Seq<SubnetConfigV>,
    oldp: Seq<SubnetConfigV>,
    newp: Seq<SubnetConfigV>,
    subnetv: Seq<char>,
    frome: u64,
    toe: u64,
    r: Result<ManagerAction, RpcError>,
) -> bool {
    &&& (!path_ok(subnetv) ==> (r matches Err(e) && e is ParseError) && newp == oldp)
    &&& (path_ok(subnetv) ==> {
        let target = path_segs(subnetv);
        &&& lookup_entry(newp, target) == lookup_entry(cfgv, target)
        &&& (forall|k: Seq<Seq<char>>|
            k != target ==> #[trigger] lookup_entry(newp, k) == lookup_entry(oldp, k))
        &&& (lookup_entry(cfgv, target) is None ==> (r matches Err(e) && e is SubnetNotFound))
        &&& (lookup_entry(cfgv, target) is Some ==> (r matches Ok(a)
            && a matches ManagerAction::ListBottomUpCheckpoints {
            subnet: asub,
            from_epoch: af,
            to_epoch: at,
        } && asub@ == path_segs(subnetv) && af == frome && at == toe))
    })
}

/// The decision a propagate request must come to: the parent is
/// resolved as for the other parent-chain operations, but no sender is
/// needed to flush a postbox message.
pub open spec fn propagate_decision(
    cfgv: Seq<SubnetConfigV>,
    oldp: Seq<SubnetConfigV>,
    newp: Seq<SubnetConfigV>,
    subnetv: Seq<char>,
    msgv: Seq<char>,
    r: Result<ManagerAction, RpcError>,
) -> bool {
    &&& (!path_ok(subnetv) ==> (r matches Err(e) && e is ParseError) && newp == oldp)
    &&& (path_ok(subnetv) && path_segs(subnetv).len() == 1 ==> (r matches Err(e)
        && e is NoParentFound) && newp == oldp)
    &&& (path_ok(subnetv) && path_segs(subnetv).len() > 1 ==> {
        let parent = path_segs(subnetv).drop_last();
        &&& lookup_entry(newp, parent) == lookup_entry(cfgv, parent)
        &&& (forall|k: Seq<Seq<char>>|
            k != parent ==> #[trigger] lookup_entry(newp, k) == lookup_entry(oldp, k))
        &&& (lookup_entry(cfgv, parent) is None ==> (r matches Err(e)
            && e is ParentSubnetNotFound))
        &&& (lookup_entry(cfgv, parent) is Some ==> (r matches Ok(a)
            && a matches ManagerAction::Propagate { parent: ap, subnet: asub, postbox_msg_id: am }
            && ap@ == path_segs(subnetv).drop_last() && asub@ == path_segs(subnetv) && am@
            == msgv))
    })
}

/// The decision a cross-message send must come to: sender, receiver and
/// amount are all validated against the parent's backend.
pub open spec fn send_cross_decision(
    cfgv: Seq<SubnetConfigV>,
    oldp: Seq<SubnetConfigV>,
    newp: Seq<SubnetConfigV>,
    subnetv: Seq<char>,
    fromv: Option<Seq<char>>,
    tov: Seq<char>,
    amount: u64,
    r: Result<ManagerAction, RpcError>,
) -> bool {
    &&& (!path_ok(subnetv) ==> (r matches Err(e) && e is ParseError) && newp == oldp)
    &&& (path_ok(subnetv) && path_segs(subnetv).len() == 1 ==> (r matches Err(e)
        && e is NoParentFound) && newp == oldp)
    &&& (path_ok(subnetv) && path_segs(subnetv).len() > 1 ==> {
        let parent = path_segs(subnetv).drop_last();
        &&& lookup_entry(newp, parent) == lookup_entry(cfgv, parent)
        &&& (forall|k: Seq<Seq<char>>|
            k != parent ==> #[trigger] lookup_entry(newp, k) == lookup_entry(oldp, k))
        &&& (lookup_entry(cfgv, parent) is None ==> (r matches Err(e)
            && e is ParentSubnetNotFound))
        &&& (lookup_entry(cfgv, parent) matches Some(e) ==> {
            &&& (!from_ok(e, fromv) ==> (r matches Err(err) && (match fromv {
                Some(_) => err is ParseError,
                None => err is NoDefaultAccount,
            })))
            &&& (from_ok(e, fromv) && !addr_ok(e.backend, tov) ==> (r matches Err(err)
                && err is ParseError))
            &&& (from_ok(e, fromv) && addr_ok(e.backend, tov) && !f64_amount_ok(amount) ==> (
            r matches Err(err) && err is InvalidAmount))
            &&& (from_ok(e, fromv) && addr_ok(e.backend, tov) && f64_amount_ok(amount) ==> (
            r matches Ok(a) && a matches ManagerAction::SendCrossMsg {
                parent: ap,
                subnet: asub,
                from: af,
                to: at,
                amount: aa,
            } && ap@ == path_segs(subnetv).drop_last() && asub@ == path_segs(subnetv) && af@
                == resolved_from(e, fromv) && at@ == tov && aa.nano == nano_units_of(amount)))
        })
    })
}

/// The decision a plain value send must come to: no subnet is resolved,
/// so the addresses may belong to either execution layer.
pub open spec fn send_value_decision(
    fromv: Seq<char>,
    tov: Seq<char>,
    amount: u64,
    r: Result<ManagerAction, RpcError>,
) -> bool {
    &&& (!any_addr_ok(fromv) ==> (r matches Err(e) && e is ParseError))
    &&& (any_addr_ok(fromv) && !any_addr_ok(tov) ==> (r matches Err(e) && e is ParseError))
    &&& (any_addr_ok(fromv) && any_addr_ok(tov) && !f64_amount_ok(amount) ==> (r matches Err(e)
        && e is InvalidAmount))
    &&& (any_addr_ok(fromv) && any_addr_ok(tov) && f64_amount_ok(amount) ==> (r matches Ok(a)
        && a matches ManagerAction::SendValue { from: af, to: at, amount: aa } && af@ == fromv
        && at@ == tov && aa.nano == nano_units_of(amount)))
}

/// The decision a new-key request must come to.
pub open spec fn wallet_new_decision(key_typev: Seq<char>, r: Result<ManagerAction, RpcError>) -> bool {
    &&& (!key_type_ok(key_typev) ==> (r matches Err(e) && e is ParseError))
    &&& (key_type_ok(key_typev) ==> (r matches Ok(a) && a matches ManagerAction::WalletNew {
        key_type: ak,
    } && ak@ == key_typev))
}

/// The decision a key-removal request must come to.
pub open spec fn wallet_remove_decision(
    typev: Seq<char>,
    addrv: Seq<char>,
    r: Result<ManagerAction, RpcError>,
) -> bool {
    &&& (wallet_backend_of(typev) is None ==> (r matches Err(e) && e is ParseError))
    &&& (wallet_backend_of(typev) matches Some(b) ==> {
        &&& (!addr_ok(b, addrv) ==> (r matches Err(e) && e is ParseError))
        &&& (addr_ok(b, addrv) ==> (r matches Ok(a) && a matches ManagerAction::WalletRemove {
            backend: ab,
            address: aa,
        } && ab == b && aa@ == addrv))
    })
}

/// The decision a key-import request must come to; the key material is
/// opaque and handed on as given.
pub open spec fn wallet_import_decision(
    typev: Seq<char>,
    keyv: Seq<char>,
    r: Result<ManagerAction, RpcError>,
) -> bool {
    &&& (wallet_backend_of(typev) is None ==> (r matches Err(e) && e is ParseError))
    &&& (wallet_backend_of(typev) matches Some(b) ==> (r matches Ok(a)
        && a matches ManagerAction::WalletImport { backend: ab, key_info: ak } && ab == b && ak@
        == keyv))
}

/// The decision a net-address update must come to.
pub open spec fn setaddr_decision(
    cfgv: Seq<SubnetConfigV>,
    oldp: Seq<SubnetConfigV>,
    newp: Seq<SubnetConfigV>,
    subnetv: Seq<char>,
    fromv: Option<Seq<char>>,
    netaddrv: Seq<char>,
    r: Result<ManagerAction, RpcError>,
) -> bool {
    &&& (!path_ok(subnetv) ==> (r matches Err(e) && e is ParseError) && newp == oldp)
    &&& (path_ok(subnetv) && path_segs(subnetv).len() == 1 ==> (r matches Err(e)
        && e is NoParentFound) && newp == oldp)
    &&& (path_ok(subnetv) && path_segs(subnetv).len() > 1 ==> {
        let parent = path_segs(subnetv).drop_last();
        &&& lookup_entry(newp, parent) == lookup_entry(cfgv, parent)
        &&& (forall|k: Seq<Seq<char>>|
            k != parent ==> #[trigger] lookup_entry(newp, k) == lookup_entry(oldp, k))
        &&& (lookup_entry(cfgv, parent) is None ==> (r matches Err(e)
            && e is ParentSubnetNotFound))
        &&& (lookup_entry(cfgv, parent) matches Some(e) ==> {
            &&& (!from_ok(e, fromv) ==> (r matches Err(err) && (match fromv {
                Some(_) => err is ParseError,
                None => err is NoDefaultAccount,
            })))
            &&& (from_ok(e, fromv) ==> (r matches Ok(a)
                && a matches ManagerAction::SetValidatorNetAddr {
                parent: ap,
                subnet: asub,
                from: af,
                validator_net_addr: an,
            } && ap@ == path_segs(subnetv).drop_last() && asub@ == path_segs(subnetv) && af@
                == resolved_from(e, fromv) && an@ == netaddrv))
        })
    })
}

/// The handler for join requests: resolves the parent of the named
/// subnet, validates sender, worker and collateral, and decides the
/// join operation.
pub struct JoinSubnetHandler {
}

impl JoinSubnetHandler {
    /// Builds the handler.
    pub fn new() -> (r: JoinSubnetHandler) {
        JoinSubnetHandler {  }
    }

    /// Decides a join request against the current snapshot, caching the
    /// parent connection in the pool on the way.
    pub fn handle(
        &self,
        pool: &mut SubnetManagerPool,
        cfg: &ConfigSnapshot,
        request: &JoinSubnetParams,
    ) -> (r: Result<ManagerAction, RpcError>)
        requires
            old(pool).wf(),
            cfg.wf(),
        ensures
            final(pool).wf(),
            join_decision(
                cfg@,
                old(pool)@,
                final(pool)@,
                request.subnet@,
                opt_str_view(request.from),
                request.collateral,
                request.validator_net_addr@,
                opt_str_view(request.worker_addr),
                r,
            ),
    {
        let subnet = match SubnetID::parse(request.subnet.as_str()) {
            Ok(id) => id,
            Err(e) => {
                return Err(e);
            },
        };
        proof {
            lemma_path_segs_are(subnet@, request.subnet@);
        }
        let parent = match subnet.parent() {
            Some(p) => p,
            None => {
                return Err(RpcError::NoParentFound);
            },
        };
        let conn = match pool.get(&parent, cfg) {
            Some(c) => c,
            None => {
                return Err(RpcError::ParentSubnetNotFound);
            },
        };
        let subnet_config = conn.subnet();
        proof {
            lemma_lookup_found(cfg@, parent@);
        }
        match check_subnet(subnet_config, &parent) {
            Ok(_) => (),
            Err(e) => {
                return Err(e);
            },
        }
        let from = match parse_from(subnet_config, &request.from) {
            Ok(f) => f,
            Err(e) => {
                return Err(e);
            },
        };
        let worker = match &request.worker_addr {
            None => clone_string(&from),
            Some(addr) => {
                if is_addr_ok(subnet_config.backend, addr.as_str()) {
                    addr.clone()
                } else {
                    return Err(RpcError::ParseError);
                }
            },
        };
        let collateral = match token_amount_from_f64_bits(request.collateral) {
            Ok(c) => c,
            Err(e) => {
                return Err(e);
            },
        };
        Ok(
            ManagerAction::JoinSubnet {
                parent,
                subnet,
                from,
                collateral,
                validator_net_addr: clone_string(&request.validator_net_addr),
                worker_addr: worker,
            },
        )
    }
}

/// A fresh string with the same content.
fn clone_string(s: &String) -> (r: String)
    ensures
        r@ == s@,
{
    s.clone()
}

/// The handler for kill requests: resolves the parent of the named
/// subnet, validates the sender, and decides the kill operation.
pub struct KillSubnetHandler {
}

impl KillSubnetHandler {
    /// Builds the handler.
    pub fn new() -> (r: KillSubnetHandler) {
        KillSubnetHandler {  }
    }

    /// Decides a kill request against the current snapshot.
    pub fn handle(
        &self,
        pool: &mut SubnetManagerPool,
        cfg: &ConfigSnapshot,
        request: &KillSubnetParams,
    ) -> (r: Result<ManagerAction, RpcError>)
        requires
            old(pool).wf(),
            cfg.wf(),
        ensures
            final(pool).wf(),
            kill_decision(
                cfg@,
                old(pool)@,
                final(pool)@,
                request.subnet@,
                opt_str_view(request.from),
                r,
            ),
    {
        let subnet = match SubnetID::parse(request.subnet.as_str()) {
            Ok(id) => id,
            Err(e) => {
                return Err(e);
            },
        };
        proof {
            lemma_path_segs_are(subnet@, request.subnet@);
        }
        let parent = match subnet.parent() {
            Some(p) => p,
            None => {
                return Err(RpcError::NoParentFound);
            },
        };
        let conn = match pool.get(&parent, cfg) {
            Some(c) => c,
            None => {
                return Err(RpcError::ParentSubnetNotFound);
            },
        };
        let subnet_config = conn.subnet();
        proof {
            lemma_lookup_found(cfg@, parent@);
        }
        match check_subnet(subnet_config, &parent) {
            Ok(_) => (),
            Err(e) => {
                return Err(e);
            },
        }
        let from = match parse_from(subnet_config, &request.from) {
            Ok(f) => f,
            Err(e) => {
                return Err(e);
            },
        };
        Ok(ManagerAction::KillSubnet { parent, subnet, from })
    }
}

/// The handler for leave requests: resolves the parent of the named
/// subnet, validates the sender, and decides the leave operation.
pub struct LeaveSubnetHandler {
}

impl LeaveSubnetHandler {
    /// Builds the handler.
    pub fn new() -> (r: LeaveSubnetHandler) {
        LeaveSubnetHandler {  }
    }

    /// Decides a leave request against the current snapshot.
    pub fn handle(
        &self,
        pool: &mut SubnetManagerPool,
        cfg: &ConfigSnapshot,
        request: &LeaveSubnetParams,
    ) -> (r: Result<ManagerAction, RpcError>)
        requires
            old(pool).wf(),
            cfg.wf(),
        ensures
            final(pool).wf(),
            leave_decision(
                cfg@,
                old(pool)@,
                final(pool)@,
                request.subnet@,
                opt_str_view(request.from),
                r,
            ),
    {
        let subnet = match SubnetID::parse(request.subnet.as_str()) {
            Ok(id) => id,
            Err(e) => {
                return Err(e);
            },
        };
        proof {
            lemma_path_segs_are(subnet@, request.subnet@);
        }
        let parent = match subnet.parent() {
            Some(p) => p,
            None => {
                return Err(RpcError::NoParentFound);
            },
        };
        let conn = match pool.get(&parent, cfg) {
            Some(c) => c,
            None => {
                return Err(RpcError::ParentSubnetNotFound);
            },
        };
        let subnet_config = conn.subnet();
        proof {
            lemma_lookup_found(cfg@, parent@);
        }
        match check_subnet(subnet_config, &parent) {
            Ok(_) => (),
            Err(e) => {
                return Err(e);
            },
        }
        let from = match parse_from(subnet_config, &request.from) {
            Ok(f) => f,
            Err(e) => {
                return Err(e);
            },
        };
        Ok(ManagerAction::LeaveSubnet { parent, subnet, from })
    }
}

/// The handler for fund requests: resolves the parent of the named
/// subnet, validates sender and amount, and decides the fund
/// operation.
pub struct FundHandler {
}

impl FundHandler {
    /// Builds the handler.
    pub fn new() -> (r: FundHandler) {
        FundHandler {  }
    }

    /// Decides a fund request against the current snapshot.
    pub fn handle(
        &self,
        pool: &mut SubnetManagerPool,
        cfg: &ConfigSnapshot,
        request: &FundParams,
    ) -> (r: Result<ManagerAction, RpcError>)
        requires
            old(pool).wf(),
            cfg.wf(),
        ensures
            final(pool).wf(),
            value_move_decision(
                cfg@,
                old(pool)@,
                final(pool)@,
                request.subnet@,
                opt_str_view(request.from),
                request.amount,
                r,
                true,
            ),
    {
        let subnet = match SubnetID::parse(request.subnet.as_str()) {
            Ok(id) => id,
            Err(e) => {
                return Err(e);
            },
        };
        proof {
            lemma_path_segs_are(subnet@, request.subnet@);
        }
        let parent = match subnet.parent() {
            Some(p) => p,
            None => {
                return Err(RpcError::NoParentFound);
            },
        };
        let conn = match pool.get(&parent, cfg) {
            Some(c) => c,
            None => {
                return Err(RpcError::ParentSubnetNotFound);
            },
        };
        let subnet_config = conn.subnet();
        proof {
            lemma_lookup_found(cfg@, parent@);
        }
        match check_subnet(subnet_config, &parent) {
            Ok(_) => (),
            Err(e) => {
                return Err(e);
            },
        }
        let from = match parse_from(subnet_config, &request.from) {
            Ok(f) => f,
            Err(e) => {
                return Err(e);
            },
        };
        let amount = match token_amount_from_f64_bits(request.amount) {
            Ok(a) => a,
            Err(e) => {
                return Err(e);
            },
        };
        Ok(ManagerAction::Fund { parent, subnet, from, amount })
    }
}

/// The handler for release requests: resolves the parent of the named
/// subnet, validates sender and amount, and decides the release
/// operation.
pub struct ReleaseHandler {
}

impl ReleaseHandler {
    /// Builds the handler.
    pub fn new() -> (r: ReleaseHandler) {
        ReleaseHandler {  }
    }

    /// Decides a release request against the current snapshot.
    pub fn handle(
        &self,
        pool: &mut SubnetManagerPool,
        cfg: &ConfigSnapshot,
        request: &ReleaseParams,
    ) -> (r: Result<ManagerAction, RpcError>)
        requires
            old(pool).wf(),
            cfg.wf(),
        ensures
            final(pool).wf(),
            value_move_decision(
                cfg@,
                old(pool)@,
                final(pool)@,
                request.subnet@,
                opt_str_view(request.from),
                request.amount,
                r,
                false,
            ),
    {
        let subnet = match SubnetID::parse(request.subnet.as_str()) {
            Ok(id) => id,
            Err(e) => {
                return Err(e);
            },
        };
        proof {
            lemma_path_segs_are(subnet@, request.subnet@);
        }
        let parent = match subnet.parent() {
            Some(p) => p,
            None => {
                return Err(RpcError::NoParentFound);
            },
        };
        let conn = match pool.get(&parent, cfg) {
            Some(c) => c,
            None => {
                return Err(RpcError::ParentSubnetNotFound);
            },
        };
        let subnet_config = conn.subnet();
        proof {
            lemma_lookup_found(cfg@, parent@);
        }
        match check_subnet(subnet_config, &parent) {
            Ok(_) => (),
            Err(e) => {
                return Err(e);
            },
        }
        let from = match parse_from(subnet_config, &request.from) {
            Ok(f) => f,
            Err(e) => {
                return Err(e);
            },
        };
        let amount = match token_amount_from_f64_bits(request.amount) {
            Ok(a) => a,
            Err(e) => {
                return Err(e);
            },
        };
        Ok(ManagerAction::Release { parent, subnet, from, amount })
    }
}

/// The handler for validator-set queries: resolves the named subnet
/// itself, not its parent, and decides the query operation.
pub struct QueryValidatorSetHandler {
}

impl QueryValidatorSetHandler {
    /// Builds the handler.
    pub fn new() -> (r: QueryValidatorSetHandler) {
        QueryValidatorSetHandler {  }
    }

    /// Decides a validator-set query against the current snapshot.
    pub fn handle(
        &self,
        pool: &mut SubnetManagerPool,
        cfg: &ConfigSnapshot,
        request: &QueryValidatorSetParams,
    ) -> (r: Result<ManagerAction, RpcError>)
        requires
            old(pool).wf(),
            cfg.wf(),
        ensures
            final(pool).wf(),
            query_decision(cfg@, old(pool)@, final(pool)@, request.subnet@, r),
    {
        let subnet = match SubnetID::parse(request.subnet.as_str()) {
            Ok(id) => id,
            Err(e) => {
                return Err(e);
            },
        };
        proof {
            lemma_path_segs_are(subnet@, request.subnet@);
        }
        let conn = match pool.get(&subnet, cfg) {
            Some(c) => c,
            None => {
                return Err(RpcError::SubnetNotFound);
            },
        };
        proof {
            lemma_lookup_found(cfg@, subnet@);
        }
        match check_subnet(conn.subnet(), &subnet) {
            Ok(_) => (),
            Err(e) => {
                return Err(e);
            },
        }
        Ok(ManagerAction::QueryValidatorSet { subnet })
    }
}

/// The handler for create requests: the request names the parent
/// chain, whose connection carries the construction transaction.
pub struct CreateSubnetHandler {
}

impl CreateSubnetHandler {
    /// Builds the handler.
    pub fn new() -> (r: CreateSubnetHandler) {
        CreateSubnetHandler {  }
    }

    /// Decides the request against the current snapshot.
    pub fn handle(
        &self,
        pool: &mut SubnetManagerPool,
        cfg: &ConfigSnapshot,
        request: &CreateSubnetParams,
    ) -> (r: Result<ManagerAction, RpcError>)
        requires
            old(pool).wf(),
            cfg.wf(),
        ensures
            final(pool).wf(),
            create_decision(cfg@, old(pool)@, final(pool)@, request.parent@, request.name@, r),
    {
        let subnet = match SubnetID::parse(request.parent.as_str()) {
            Ok(id) => id,
            Err(e) => {
                return Err(e);
            },
        };
        proof {
            lemma_path_segs_are(subnet@, request.parent@);
        }
        let conn = match pool.get(&subnet, cfg) {
            Some(c) => c,
            None => {
                return Err(RpcError::ParentSubnetNotFound);
            },
        };
        proof {
            lemma_lookup_found(cfg@, subnet@);
        }
        match check_subnet(conn.subnet(), &subnet) {
            Ok(_) => (),
            Err(e) => {
                return Err(e);
            },
        }
        Ok(ManagerAction::CreateSubnet { parent: subnet, name: clone_string(&request.name) })
    }
}

/// The handler for raw subnet RPC: resolves the named subnet itself
/// so the caller can forward the call to its connection.
pub struct RpcSubnetHandler {
}

impl RpcSubnetHandler {
    /// Builds the handler.
    pub fn new() -> (r: RpcSubnetHandler) {
        RpcSubnetHandler {  }
    }

    /// Decides the request against the current snapshot.
    pub fn handle(
        &self,
        pool: &mut SubnetManagerPool,
        cfg: &ConfigSnapshot,
        request: &SubnetParams,
    ) -> (r: Result<ManagerAction, RpcError>)
        requires
            old(pool).wf(),
            cfg.wf(),
        ensures
            final(pool).wf(),
            rpc_decision(cfg@, old(pool)@, final(pool)@, request.subnet@, r),
    {
        let subnet = match SubnetID::parse(request.subnet.as_str()) {
            Ok(id) => id,
            Err(e) => {
                return Err(e);
            },
        };
        proof {
            lemma_path_segs_are(subnet@, request.subnet@);
        }
        let conn = match pool.get(&subnet, cfg) {
            Some(c) => c,
            None => {
                return Err(RpcError::SubnetNotFound);
            },
        };
        proof {
            lemma_lookup_found(cfg@, subnet@);
        }
        match check_subnet(conn.subnet(), &subnet) {
            Ok(_) => (),
            Err(e) => {
                return Err(e);
            },
        }
        Ok(ManagerAction::RpcSubnet { subnet })
    }
}

/// The handler for child-subnet listings: resolves the named subnet
/// itself.
pub struct ListSubnetsHandler {
}

impl ListSubnetsHandler {
    /// Builds the handler.
    pub fn new() -> (r: ListSubnetsHandler) {
        ListSubnetsHandler {  }
    }

    /// Decides the request against the current snapshot.
    pub fn handle(
        &self,
        pool: &mut SubnetManagerPool,
        cfg: &ConfigSnapshot,
        request: &SubnetParams,
    ) -> (r: Result<ManagerAction, RpcError>)
        requires
            old(pool).wf(),
            cfg.wf(),
        ensures
            final(pool).wf(),
            list_child_decision(cfg@, old(pool)@, final(pool)@, request.subnet@, r),
    {
        let subnet = match SubnetID::parse(request.subnet.as_str()) {
            Ok(id) => id,
            Err(e) => {
                return Err(e);
            },
        };
        proof {
            lemma_path_segs_are(subnet@, request.subnet@);
        }
        let conn = match pool.get(&subnet, cfg) {
            Some(c) => c,
            None => {
                return Err(RpcError::SubnetNotFound);
            },
        };
        proof {
            lemma_lookup_found(cfg@, subnet@);
        }
        match check_subnet(conn.subnet(), &subnet) {
            Ok(_) => (),
            Err(e) => {
                return Err(e);
            },
        }
        Ok(ManagerAction::ListChildSubnets { subnet })
    }
}

/// The handler for top-down execution queries: resolves the named
/// subnet itself.
pub struct LastTopDownExecHandler {
}

impl LastTopDownExecHandler {
    /// Builds the handler.
    pub fn new() -> (r: LastTopDownExecHandler) {
        LastTopDownExecHandler {  }
    }

    /// Decides the request against the current snapshot.
    pub fn handle(
        &self,
        pool: &mut SubnetManagerPool,
        cfg: &ConfigSnapshot,
        request: &SubnetParams,
    ) -> (r: Result<ManagerAction, RpcError>)
        requires
            old(pool).wf(),
            cfg.wf(),
        ensures
            final(pool).wf(),
            last_topdown_decision(cfg@, old(pool)@, final(pool)@, request.subnet@, r),
    {
        let subnet = match SubnetID::parse(request.subnet.as_str()) {
            Ok(id) => id,
            Err(e) => {
                return Err(e);
            },
        };
        proof {
            lemma_path_segs_are(subnet@, request.subnet@);
        }
        let conn = match pool.get(&subnet, cfg) {
            Some(c) => c,
            None => {
                return Err(RpcError::SubnetNotFound);
            },
        };
        proof {
            lemma_lookup_found(cfg@, subnet@);
        }
        match check_subnet(conn.subnet(), &subnet) {
            Ok(_) => (),
            Err(e) => {
                return Err(e);
            },
        }
        Ok(ManagerAction::LastTopDownExecuted { subnet })
    }
}

/// The handler for checkpoint listings: resolves the named subnet
/// itself and hands the epoch bounds on.
pub struct ListBottomUpCheckpointsHandler {
}

impl ListBottomUpCheckpointsHandler {
    /// Builds the handler.
    pub fn new() -> (r: ListBottomUpCheckpointsHandler) {
        ListBottomUpCheckpointsHandler {  }
    }

    /// Decides the request against the current snapshot.
    pub fn handle(
        &self,
        pool: &mut SubnetManagerPool,
        cfg: &ConfigSnapshot,
        request: &ListBottomUpCheckpointsParams,
    ) -> (r: Result<ManagerAction, RpcError>)
        requires
            old(pool).wf(),
            cfg.wf(),
        ensures
            final(pool).wf(),
            checkpoints_decision(
                cfg@,
                old(pool)@,
                final(pool)@,
                request.subnet@,
                request.from_epoch,
                request.to_epoch,
                r,
            ),
    {
        let subnet = match SubnetID::parse(request.subnet.as_str()) {
            Ok(id) => id,
            Err(e) => {
                return Err(e);
            },
        };
        proof {
            lemma_path_segs_are(subnet@, request.subnet@);
        }
        let conn = match pool.get(&subnet, cfg) {
            Some(c) => c,
            None => {
                return Err(RpcError::SubnetNotFound);
            },
        };
        proof {
            lemma_lookup_found(cfg@, subnet@);
        }
        match check_subnet(conn.subnet(), &subnet) {
            Ok(_) => (),
            Err(e) => {
                return Err(e);
            },
        }
        Ok(ManagerAction::ListBottomUpCheckpoints {
            subnet,
            from_epoch: request.from_epoch,
            to_epoch: request.to_epoch,
        })
    }
}

/// The handler for propagate requests: resolves the parent as the
/// other parent-chain operations do, without a sender.
pub struct PropagateHandler {
}

impl PropagateHandler {
    /// Builds the handler.
    pub fn new() -> (r: PropagateHandler) {
        PropagateHandler {  }
    }

    /// Decides the request against the current snapshot.
    pub fn handle(
        &self,
        pool: &mut SubnetManagerPool,
        cfg: &ConfigSnapshot,
        request: &PropagateParams,
    ) -> (r: Result<ManagerAction, RpcError>)
        requires
            old(pool).wf(),
            cfg.wf(),
        ensures
            final(pool).wf(),
            propagate_decision(
                cfg@,
                old(pool)@,
                final(pool)@,
                request.subnet@,
                request.postbox_msg_id@,
                r,
            ),
    {
        let subnet = match SubnetID::parse(request.subnet.as_str()) {
            Ok(id) => id,
            Err(e) => {
                return Err(e);
            },
        };
        proof {
            lemma_path_segs_are(subnet@, request.subnet@);
        }
        let parent = match subnet.parent() {
            Some(p) => p,
            None => {
                return Err(RpcError::NoParentFound);
            },
        };
        let conn = match pool.get(&parent, cfg) {
            Some(c) => c,
            None => {
                return Err(RpcError::ParentSubnetNotFound);
            },
        };
        let subnet_config = conn.subnet();
        proof {
            lemma_lookup_found(cfg@, parent@);
        }
        match check_subnet(subnet_config, &parent) {
            Ok(_) => (),
            Err(e) => {
                return Err(e);
            },
        }
        Ok(
            ManagerAction::Propagate {
                parent,
                subnet,
                postbox_msg_id: clone_string(&request.postbox_msg_id),
            },
        )
    }
}

/// The handler for cross-message sends: resolves the parent and
/// validates sender, receiver and amount.
pub struct SendCrossMsgHandler {
}

impl SendCrossMsgHandler {
    /// Builds the handler.
    pub fn new() -> (r: SendCrossMsgHandler) {
        SendCrossMsgHandler {  }
    }

    /// Decides the request against the current snapshot.
    pub fn handle(
        &self,
        pool: &mut SubnetManagerPool,
        cfg: &ConfigSnapshot,
        request: &SendCrossMsgParams,
    ) -> (r: Result<ManagerAction, RpcError>)
        requires
            old(pool).wf(),
            cfg.wf(),
        ensures
            final(pool).wf(),
            send_cross_decision(
                cfg@,
                old(pool)@,
                final(pool)@,
                request.subnet@,
                opt_str_view(request.from),
                request.to@,
                request.amount,
                r,
            ),
    {
        let subnet = match SubnetID::parse(request.subnet.as_str()) {
            Ok(id) => id,
            Err(e) => {
                return Err(e);
            },
        };
        proof {
            lemma_path_segs_are(subnet@, request.subnet@);
        }
        let parent = match subnet.parent() {
            Some(p) => p,
            None => {
                return Err(RpcError::NoParentFound);
            },
        };
        let conn = match pool.get(&parent, cfg) {
            Some(c) => c,
            None => {
                return Err(RpcError::ParentSubnetNotFound);
            },
        };
        let subnet_config = conn.subnet();
        proof {
            lemma_lookup_found(cfg@, parent@);
        }
        match check_subnet(subnet_config, &parent) {
            Ok(_) => (),
            Err(e) => {
                return Err(e);
            },
        }
        let from = match parse_from(subnet_config, &request.from) {
            Ok(f) => f,
            Err(e) => {
                return Err(e);
            },
        };
        if !is_addr_ok(subnet_config.backend, request.to.as_str()) {
            return Err(RpcError::ParseError);
        }
        let amount = match token_amount_from_f64_bits(request.amount) {
            Ok(a) => a,
            Err(e) => {
                return Err(e);
            },
        };
        Ok(
            ManagerAction::SendCrossMsg {
                parent,
                subnet,
                from,
                to: clone_string(&request.to),
                amount,
            },
        )
    }
}

/// The handler for net-address updates: resolves the parent and the
/// sender, and hands the new address on.
pub struct SetValidatorNetAddrHandler {
}

impl SetValidatorNetAddrHandler {
    /// Builds the handler.
    pub fn new() -> (r: SetValidatorNetAddrHandler) {
        SetValidatorNetAddrHandler {  }
    }

    /// Decides the request against the current snapshot.
    pub fn handle(
        &self,
        pool: &mut SubnetManagerPool,
        cfg: &ConfigSnapshot,
        request: &SetValidatorNetAddrParams,
    ) -> (r: Result<ManagerAction, RpcError>)
        requires
            old(pool).wf(),
            cfg.wf(),
        ensures
            final(pool).wf(),
            setaddr_decision(
                cfg@,
                old(pool)@,
                final(pool)@,
                request.subnet@,
                opt_str_view(request.from),
                request.validator_net_addr@,
                r,
            ),
    {
        let subnet = match SubnetID::parse(request.subnet.as_str()) {
            Ok(id) => id,
            Err(e) => {
                return Err(e);
            },
        };
        proof {
            lemma_path_segs_are(subnet@, request.subnet@);
        }
        let parent = match subnet.parent() {
            Some(p) => p,
            None => {
                return Err(RpcError::NoParentFound);
            },
        };
        let conn = match pool.get(&parent, cfg) {
            Some(c) => c,
            None => {
                return Err(RpcError::ParentSubnetNotFound);
            },
        };
        let subnet_config = conn.subnet();
        proof {
            lemma_lookup_found(cfg@, parent@);
        }
        match check_subnet(subnet_config, &parent) {
            Ok(_) => (),
            Err(e) => {
                return Err(e);
            },
        }
        let from = match parse_from(subnet_config, &request.from) {
            Ok(f) => f,
            Err(e) => {
                return Err(e);
            },
        };
        Ok(
            ManagerAction::SetValidatorNetAddr {
                parent,
                subnet,
                from,
                validator_net_addr: clone_string(&request.validator_net_addr),
            },
        )
    }
}

/// The handler for plain value sends: the one operation with no subnet
/// resolution, addressed on the caller's own chain context.
pub struct SendValueHandler {
}

impl SendValueHandler {
    /// Builds the handler.
    pub fn new() -> (r: SendValueHandler) {
        SendValueHandler {  }
    }

    /// Decides the request; the pool is never consulted.
    pub fn handle(&self, request: &SendValueParams) -> (r: Result<ManagerAction, RpcError>)
        ensures
            send_value_decision(request.from@, request.to@, request.amount, r),
    {
        if !is_any_addr(request.from.as_str()) {
            return Err(RpcError::ParseError);
        }
        if !is_any_addr(request.to.as_str()) {
            return Err(RpcError::ParseError);
        }
        let amount = match token_amount_from_f64_bits(request.amount) {
            Ok(a) => a,
            Err(e) => {
                return Err(e);
            },
        };
        Ok(
            ManagerAction::SendValue {
                from: clone_string(&request.from),
                to: clone_string(&request.to),
                amount,
            },
        )
    }
}

/// The handler for new-key requests: validates the key kind and leaves
/// the keystore work to the caller.
pub struct WalletNewHandler {
}

impl WalletNewHandler {
    /// Builds the handler.
    pub fn new() -> (r: WalletNewHandler) {
        WalletNewHandler {  }
    }

    /// Decides the request.
    pub fn handle(&self, request: &WalletNewParams) -> (r: Result<ManagerAction, RpcError>)
        ensures
            wallet_new_decision(request.key_type@, r),
    {
        if str_eq(request.key_type.as_str(), "bls") || str_eq(
            request.key_type.as_str(),
            "secp256k1",
        ) || str_eq(request.key_type.as_str(), "evm") {
            Ok(ManagerAction::WalletNew { key_type: clone_string(&request.key_type) })
        } else {
            Err(RpcError::ParseError)
        }
    }
}

/// The handler for key-removal requests: resolves the keystore and
/// validates the address for it.
pub struct WalletRemoveHandler {
}

impl WalletRemoveHandler {
    /// Builds the handler.
    pub fn new() -> (r: WalletRemoveHandler) {
        WalletRemoveHandler {  }
    }

    /// Decides the request.
    pub fn handle(&self, request: &WalletRemoveParams) -> (r: Result<ManagerAction, RpcError>)
        ensures
            wallet_remove_decision(request.wallet_type@, request.address@, r),
    {
        let backend = match parse_wallet_backend(request.wallet_type.as_str()) {
            Some(b) => b,
            None => {
                return Err(RpcError::ParseError);
            },
        };
        if !is_addr_ok(backend, request.address.as_str()) {
            return Err(RpcError::ParseError);
        }
        Ok(ManagerAction::WalletRemove { backend, address: clone_string(&request.address) })
    }
}

/// The handler for key-import requests: resolves the keystore and hands
/// the opaque key material on.
pub struct WalletImportHandler {
}

impl WalletImportHandler {
    /// Builds the handler.
    pub fn new() -> (r: WalletImportHandler) {
        WalletImportHandler {  }
    }

    /// Decides the request.
    pub fn handle(&self, request: &WalletImportParams) -> (r: Result<ManagerAction, RpcError>)
        ensures
            wallet_import_decision(request.wallet_type@, request.key_info@, r),
    {
        let backend = match parse_wallet_backend(request.wallet_type.as_str()) {
            Some(b) => b,
            None => {
                return Err(RpcError::ParseError);
            },
        };
        Ok(ManagerAction::WalletImport { backend, key_info: clone_string(&request.key_info) })
    }
}

/// Any well-formed parse result is what `path_segs` names.
proof fn lemma_path_segs_are(segs: Seq<Seq<char>>, s: Seq<char>)
    requires
        valid_segments(segs),
        render(segs) == s,
    ensures
        path_segs(s) == segs,
{
    assert(exists|x: Seq<Seq<char>>| valid_segments(x) && render(x) == s) by {
        assert(valid_segments(segs) && render(segs) == s);
    }
    lemma_render_injective(path_segs(s), segs);
}

} // verus!
