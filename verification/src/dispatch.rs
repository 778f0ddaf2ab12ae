use vstd::prelude::*;
use crate::config::ConfigSnapshot;
use crate::errors::RpcError;
use crate::handlers::{CreateSubnetHandler, FundHandler, JoinSubnetHandler, KillSubnetHandler,
    LastTopDownExecHandler, LeaveSubnetHandler, ListBottomUpCheckpointsHandler,
    ListSubnetsHandler, ManagerAction, PropagateHandler, QueryValidatorSetHandler,
    ReleaseHandler, RpcSubnetHandler, SendCrossMsgHandler, SendValueHandler,
    SetValidatorNetAddrHandler, WalletImportHandler, WalletNewHandler, WalletRemoveHandler,
    join_decision, kill_decision, leave_decision, query_decision, value_move_decision,
    create_decision, rpc_decision, propagate_decision, send_cross_decision, send_value_decision,
    wallet_new_decision, wallet_remove_decision, wallet_import_decision, setaddr_decision,
    list_child_decision, checkpoints_decision, last_topdown_decision, join_params_decodable,
    kill_params_decodable, leave_params_decodable, amount_params_decodable,
    query_params_decodable, subnet_params_decodable, create_params_decodable,
    propagate_params_decodable, send_cross_params_decodable, send_value_params_decodable,
    wallet_new_params_decodable, wallet_remove_params_decodable, wallet_import_params_decodable,
    setaddr_params_decodable, checkpoints_params_decodable, decode_join_params,
    decode_kill_params, decode_leave_params, decode_fund_params, decode_release_params,
    decode_query_params, decode_subnet_params, decode_create_params, decode_propagate_params,
    decode_send_cross_params, decode_send_value_params, decode_wallet_new_params,
    decode_wallet_remove_params, decode_wallet_import_params, decode_setaddr_params,
    decode_checkpoints_params};
use crate::json::{JsonValue, str_field, opt_field, num_field, str_eq};
use crate::pool::SubnetManagerPool;
use vstd::string::StringExecFns;

verus! {

/// The names under which this registry answers, in registration order.
pub open spec fn registry_names() -> Seq<Seq<char>> {
    seq![
        "reload_config"@,
        "create_subnet"@,
        "leave_subnet"@,
        "kill_subnet"@,
        "join_subnet"@,
        "rpc_subnet"@,
        "fund"@,
        "release"@,
        "propagate"@,
        "send_cross_msg"@,
        "send_value"@,
        "wallet_new"@,
        "wallet_remove"@,
        "wallet_import"@,
        "wallet_balances"@,
        "set_validator_net_addr"@,
        "list_child_subnets"@,
        "list_bottomup_checkpoints"@,
        "last_topdown_executed"@,
        "query_validator_set"@,
    ]
}

/// The method registry: a fixed mapping from method name to handler,
/// built once at startup and immutable afterwards. The wallet export
/// method is deliberately absent: exporting a key must stay a local
/// operation and never answer on the network boundary.
pub struct Handlers {
    methods: Vec<String>,
}

impl View for Handlers {
    type V = Seq<Seq<char>>;

    closed spec fn view(&self) -> Seq<Seq<char>> {
        self.methods.deep_view()
    }
}

impl Handlers {
    /// A registry with no methods: every dispatch fails with the
    /// method-not-supported error; the routing itself can then be
    /// exercised alone.
    pub fn empty_handlers() -> (r: Handlers)
        ensures
            r@.len() == 0,
    {
        Handlers { methods: Vec::new() }
    }

    /// Builds the registry from the fixed method list. Each name is
    /// registered once; a duplicate would be a programming error, so
    /// the built table is checked here, when the process starts, not
    /// on some later request.
    pub fn new() -> (r: Result<Handlers, RpcError>)
        ensures
            r matches Ok(h) && h@ == registry_names(),
    {
        let mut methods: Vec<String> = Vec::new();
        methods.push(String::from_str("reload_config"));
        methods.push(String::from_str("create_subnet"));
        methods.push(String::from_str("leave_subnet"));
        methods.push(String::from_str("kill_subnet"));
        methods.push(String::from_str("join_subnet"));
        methods.push(String::from_str("rpc_subnet"));
        methods.push(String::from_str("fund"));
        methods.push(String::from_str("release"));
        methods.push(String::from_str("propagate"));
        methods.push(String::from_str("send_cross_msg"));
        methods.push(String::from_str("send_value"));
        methods.push(String::from_str("wallet_new"));
        methods.push(String::from_str("wallet_remove"));
        methods.push(String::from_str("wallet_import"));
        methods.push(String::from_str("wallet_balances"));
        methods.push(String::from_str("set_validator_net_addr"));
        methods.push(String::from_str("list_child_subnets"));
        methods.push(String::from_str("list_bottomup_checkpoints"));
        methods.push(String::from_str("last_topdown_executed"));
        methods.push(String::from_str("query_validator_set"));
        proof {
            assert(methods.deep_view() =~= registry_names());
        }
        Ok(Handlers { methods })
    }

    /// Whether a handler is registered under the name.
    pub fn knows(&self, method: &str) -> (r: bool)
        ensures
            r == self@.contains(method@),
    {
        let mut i: usize = 0;
        while i < self.methods.len()
            invariant
                i <= self@.len(),
                self@.len() == self.methods@.len(),
                forall|j: int| 0 <= j < i ==> #[trigger] self@[j] != method@,
            decreases self.methods.len() - i,
        {
            assert(self@[i as int] == self.methods@[i as int]@);
            if str_eq(self.methods[i].as_str(), method) {
                assert(self@.contains(method@)) by {
                    assert(self@[i as int] == method@);
                }
                return true;
            }
            i += 1;
        }
        proof {
            if self@.contains(method@) {
                let j = choose|j: int| 0 <= j < self@.len() && self@[j] == method@;
                assert(false);
            }
        }
        false
    }

    /// Looks the method up and lets its handler decide the request:
    /// an unknown name fails with the method-not-supported error, a
    /// payload that does not decode fails with the invalid-params
    /// error, and otherwise the handler's decision is returned for the
    /// caller to perform. Backend errors surface only when the caller
    /// performs the action; the dispatcher never interprets them.
    pub fn handle(
        &self,
        pool: &mut SubnetManagerPool,
        cfg: &ConfigSnapshot,
        method: &str,
        params: &JsonValue,
    ) -> (r: Result<ManagerAction, RpcError>)
        requires
            old(pool).wf(),
            cfg.wf(),
        ensures
            final(pool).wf(),
            !self@.contains(method@) ==> (r matches Err(e) && e is MethodNotSupported)
                && final(pool)@ == old(pool)@,
            self@.contains(method@) && method@ == "reload_config"@ ==> (r matches Ok(a)
                && a is ReloadConfig) && final(pool)@ == old(pool)@,
            self@.contains(method@) && method@ == "wallet_balances"@ ==> (r matches Ok(a)
                && a is WalletBalances) && final(pool)@ == old(pool)@,
            self@.contains(method@) && method@ == "join_subnet"@ ==> {
                &&& (!join_params_decodable(*params) ==> (r matches Err(e) && e is InvalidParams)
                    && final(pool)@ == old(pool)@)
                &&& (params matches JsonValue::Obj(fs) ==> join_params_decodable(*params)
                    ==> join_decision(
                    cfg@,
                    old(pool)@,
                    final(pool)@,
                    str_field(fs@, "subnet"@)->Some_0,
                    opt_field(fs@, "from"@)->Some_0,
                    num_field(fs@, "collateral"@)->Some_0,
                    str_field(fs@, "validator_net_addr"@)->Some_0,
                    opt_field(fs@, "worker_addr"@)->Some_0,
                    r,
                ))
            },
            self@.contains(method@) && method@ == "leave_subnet"@ ==> {
                &&& (!leave_params_decodable(*params) ==> (r matches Err(e) && e is InvalidParams)
                    && final(pool)@ == old(pool)@)
                &&& (params matches JsonValue::Obj(fs) ==> leave_params_decodable(*params)
                    ==> leave_decision(
                    cfg@,
                    old(pool)@,
                    final(pool)@,
                    str_field(fs@, "subnet"@)->Some_0,
                    opt_field(fs@, "from"@)->Some_0,
                    r,
                ))
            },
            self@.contains(method@) && method@ == "fund"@ ==> {
                &&& (!amount_params_decodable(*params) ==> (r matches Err(e) && e is InvalidParams)
                    && final(pool)@ == old(pool)@)
                &&& (params matches JsonValue::Obj(fs) ==> amount_params_decodable(*params)
                    ==> value_move_decision(
                    cfg@,
                    old(pool)@,
                    final(pool)@,
                    str_field(fs@, "subnet"@)->Some_0,
                    opt_field(fs@, "from"@)->Some_0,
                    num_field(fs@, "amount"@)->Some_0,
                    r,
                    true,
                ))
            },
            self@.contains(method@) && method@ == "release"@ ==> {
                &&& (!amount_params_decodable(*params) ==> (r matches Err(e) && e is InvalidParams)
                    && final(pool)@ == old(pool)@)
                &&& (params matches JsonValue::Obj(fs) ==> amount_params_decodable(*params)
                    ==> value_move_decision(
                    cfg@,
                    old(pool)@,
                    final(pool)@,
                    str_field(fs@, "subnet"@)->Some_0,
                    opt_field(fs@, "from"@)->Some_0,
                    num_field(fs@, "amount"@)->Some_0,
                    r,
                    false,
                ))
            },
            self@.contains(method@) && method@ == "query_validator_set"@ ==> {
                &&& (!query_params_decodable(*params) ==> (r matches Err(e) && e is InvalidParams)
                    && final(pool)@ == old(pool)@)
                &&& (params matches JsonValue::Obj(fs) ==> query_params_decodable(*params)
                    ==> query_decision(
                    cfg@,
                    old(pool)@,
                    final(pool)@,
                    str_field(fs@, "subnet"@)->Some_0,
                    r,
                ))
            },
            self@.contains(method@) && method@ == "create_subnet"@ ==> {
                &&& (!create_params_decodable(*params) ==> (r matches Err(e) && e is InvalidParams)
                    && final(pool)@ == old(pool)@)
                &&& (params matches JsonValue::Obj(fs) ==> create_params_decodable(*params)
                    ==> create_decision(
                    cfg@,
                    old(pool)@,
                    final(pool)@,
                    str_field(fs@, "parent"@)->Some_0,
                    str_field(fs@, "name"@)->Some_0,
                    r,
                ))
            },
            self@.contains(method@) && method@ == "rpc_subnet"@ ==> {
                &&& (!subnet_params_decodable(*params) ==> (r matches Err(e) && e is InvalidParams)
                    && final(pool)@ == old(pool)@)
                &&& (params matches JsonValue::Obj(fs) ==> subnet_params_decodable(*params)
                    ==> rpc_decision(
                    cfg@,
                    old(pool)@,
                    final(pool)@,
                    str_field(fs@, "subnet"@)->Some_0,
                    r,
                ))
            },
            self@.contains(method@) && method@ == "list_child_subnets"@ ==> {
                &&& (!subnet_params_decodable(*params) ==> (r matches Err(e) && e is InvalidParams)
                    && final(pool)@ == old(pool)@)
                &&& (params matches JsonValue::Obj(fs) ==> subnet_params_decodable(*params)
                    ==> list_child_decision(
                    cfg@,
                    old(pool)@,
                    final(pool)@,
                    str_field(fs@, "subnet"@)->Some_0,
                    r,
                ))
            },
            self@.contains(method@) && method@ == "last_topdown_executed"@ ==> {
                &&& (!subnet_params_decodable(*params) ==> (r matches Err(e) && e is InvalidParams)
                    && final(pool)@ == old(pool)@)
                &&& (params matches JsonValue::Obj(fs) ==> subnet_params_decodable(*params)
                    ==> last_topdown_decision(
                    cfg@,
                    old(pool)@,
                    final(pool)@,
                    str_field(fs@, "subnet"@)->Some_0,
                    r,
                ))
            },
            self@.contains(method@) && method@ == "list_bottomup_checkpoints"@ ==> {
                &&& (!checkpoints_params_decodable(*params) ==> (r matches Err(e)
                    && e is InvalidParams) && final(pool)@ == old(pool)@)
                &&& (params matches JsonValue::Obj(fs) ==> checkpoints_params_decodable(*params)
                    ==> checkpoints_decision(
                    cfg@,
                    old(pool)@,
                    final(pool)@,
                    str_field(fs@, "subnet"@)->Some_0,
                    crate::amount::f64_int_of(num_field(fs@, "from_epoch"@)->Some_0)->Some_0,
                    crate::amount::f64_int_of(num_field(fs@, "to_epoch"@)->Some_0)->Some_0,
                    r,
                ))
            },
            self@.contains(method@) && method@ == "propagate"@ ==> {
                &&& (!propagate_params_decodable(*params) ==> (r matches Err(e)
                    && e is InvalidParams) && final(pool)@ == old(pool)@)
                &&& (params matches JsonValue::Obj(fs) ==> propagate_params_decodable(*params)
                    ==> propagate_decision(
                    cfg@,
                    old(pool)@,
                    final(pool)@,
                    str_field(fs@, "subnet"@)->Some_0,
                    str_field(fs@, "postbox_msg_id"@)->Some_0,
                    r,
                ))
            },
            self@.contains(method@) && method@ == "send_cross_msg"@ ==> {
                &&& (!send_cross_params_decodable(*params) ==> (r matches Err(e)
                    && e is InvalidParams) && final(pool)@ == old(pool)@)
                &&& (params matches JsonValue::Obj(fs) ==> send_cross_params_decodable(*params)
                    ==> send_cross_decision(
                    cfg@,
                    old(pool)@,
                    final(pool)@,
                    str_field(fs@, "subnet"@)->Some_0,
                    opt_field(fs@, "from"@)->Some_0,
                    str_field(fs@, "to"@)->Some_0,
                    num_field(fs@, "amount"@)->Some_0,
                    r,
                ))
            },
            self@.contains(method@) && method@ == "send_value"@ ==> {
                &&& (!send_value_params_decodable(*params) ==> (r matches Err(e)
                    && e is InvalidParams) && final(pool)@ == old(pool)@)
                &&& final(pool)@ == old(pool)@
                &&& (params matches JsonValue::Obj(fs) ==> send_value_params_decodable(*params)
                    ==> send_value_decision(
                    str_field(fs@, "from"@)->Some_0,
                    str_field(fs@, "to"@)->Some_0,
                    num_field(fs@, "amount"@)->Some_0,
                    r,
                ))
            },
            self@.contains(method@) && method@ == "wallet_new"@ ==> {
                &&& (!wallet_new_params_decodable(*params) ==> (r matches Err(e)
                    && e is InvalidParams) && final(pool)@ == old(pool)@)
                &&& final(pool)@ == old(pool)@
                &&& (params matches JsonValue::Obj(fs) ==> wallet_new_params_decodable(*params)
                    ==> wallet_new_decision(str_field(fs@, "key_type"@)->Some_0, r))
            },
            self@.contains(method@) && method@ == "wallet_remove"@ ==> {
                &&& (!wallet_remove_params_decodable(*params) ==> (r matches Err(e)
                    && e is InvalidParams) && final(pool)@ == old(pool)@)
                &&& final(pool)@ == old(pool)@
                &&& (params matches JsonValue::Obj(fs) ==> wallet_remove_params_decodable(*params)
                    ==> wallet_remove_decision(
                    str_field(fs@, "wallet_type"@)->Some_0,
                    str_field(fs@, "address"@)->Some_0,
                    r,
                ))
            },
            self@.contains(method@) && method@ == "wallet_import"@ ==> {
                &&& (!wallet_import_params_decodable(*params) ==> (r matches Err(e)
                    && e is InvalidParams) && final(pool)@ == old(pool)@)
                &&& final(pool)@ == old(pool)@
                &&& (params matches JsonValue::Obj(fs) ==> wallet_import_params_decodable(*params)
                    ==> wallet_import_decision(
                    str_field(fs@, "wallet_type"@)->Some_0,
                    str_field(fs@, "key_info"@)->Some_0,
                    r,
                ))
            },
            self@.contains(method@) && method@ == "set_validator_net_addr"@ ==> {
                &&& (!setaddr_params_decodable(*params) ==> (r matches Err(e)
                    && e is InvalidParams) && final(pool)@ == old(pool)@)
                &&& (params matches JsonValue::Obj(fs) ==> setaddr_params_decodable(*params)
                    ==> setaddr_decision(
                    cfg@,
                    old(pool)@,
                    final(pool)@,
                    str_field(fs@, "subnet"@)->Some_0,
                    opt_field(fs@, "from"@)->Some_0,
                    str_field(fs@, "validator_net_addr"@)->Some_0,
                    r,
                ))
            },
            self@.contains(method@) && method@ == "kill_subnet"@ ==> {
                &&& (!kill_params_decodable(*params) ==> (r matches Err(e) && e is InvalidParams)
                    && final(pool)@ == old(pool)@)
                &&& (params matches JsonValue::Obj(fs) ==> kill_params_decodable(*params)
                    ==> kill_decision(
                    cfg@,
                    old(pool)@,
                    final(pool)@,
                    str_field(fs@, "subnet"@)->Some_0,
                    opt_field(fs@, "from"@)->Some_0,
                    r,
                ))
            },
    {
        proof {
            reveal_strlit("reload_config");
            reveal_strlit("create_subnet");
            reveal_strlit("leave_subnet");
            reveal_strlit("kill_subnet");
            reveal_strlit("join_subnet");
            reveal_strlit("rpc_subnet");
            reveal_strlit("fund");
            reveal_strlit("release");
            reveal_strlit("propagate");
            reveal_strlit("send_cross_msg");
            reveal_strlit("send_value");
            reveal_strlit("wallet_new");
            reveal_strlit("wallet_remove");
            reveal_strlit("wallet_import");
            reveal_strlit("wallet_balances");
            reveal_strlit("set_validator_net_addr");
            reveal_strlit("list_child_subnets");
            reveal_strlit("list_bottomup_checkpoints");
            reveal_strlit("last_topdown_executed");
            reveal_strlit("query_validator_set");
            assert("reload_config"@.len() == 13);
            assert("create_subnet"@.len() == 13);
            assert("leave_subnet"@.len() == 12);
            assert("kill_subnet"@.len() == 11);
            assert("join_subnet"@.len() == 11);
            assert("rpc_subnet"@.len() == 10);
            assert("fund"@.len() == 4);
            assert("release"@.len() == 7);
            assert("propagate"@.len() == 9);
            assert("send_cross_msg"@.len() == 14);
            assert("send_value"@.len() == 10);
            assert("wallet_new"@.len() == 10);
            assert("wallet_remove"@.len() == 13);
            assert("wallet_import"@.len() == 13);
            assert("wallet_balances"@.len() == 15);
            assert("set_validator_net_addr"@.len() == 22);
            assert("list_child_subnets"@.len() == 18);
            assert("list_bottomup_checkpoints"@.len() == 25);
            assert("last_topdown_executed"@.len() == 21);
            assert("query_validator_set"@.len() == 19);
            assert("reload_config"@[0] == 'r');
            assert("create_subnet"@[0] == 'c');
            assert("leave_subnet"@[0] == 'l');
            assert("kill_subnet"@[0] == 'k');
            assert("join_subnet"@[0] == 'j');
            assert("rpc_subnet"@[0] == 'r');
            assert("fund"@[0] == 'f');
            assert("release"@[0] == 'r');
            assert("propagate"@[0] == 'p');
            assert("send_cross_msg"@[0] == 's');
            assert("send_value"@[0] == 's');
            assert("wallet_new"@[0] == 'w');
            assert("wallet_remove"@[0] == 'w');
            assert("wallet_import"@[0] == 'w');
            assert("wallet_balances"@[0] == 'w');
            assert("set_validator_net_addr"@[0] == 's');
            assert("list_child_subnets"@[0] == 'l');
            assert("list_bottomup_checkpoints"@[0] == 'l');
            assert("last_topdown_executed"@[0] == 'l');
            assert("query_validator_set"@[0] == 'q');
            assert("wallet_remove"@[7] == 'r');
            assert("wallet_import"@[7] == 'i');
        }
        if !self.knows(method) {
            return Err(RpcError::MethodNotSupported);
        }
        if str_eq(method, "reload_config") {
            return Ok(ManagerAction::ReloadConfig);
        }
        if str_eq(method, "wallet_balances") {
            return Ok(ManagerAction::WalletBalances);
        }
        if str_eq(method, "join_subnet") {
            let request = match decode_join_params(params) {
                Ok(p) => p,
                Err(e) => {
                    return Err(e);
                },
            };
            let handler = JoinSubnetHandler::new();
            return handler.handle(pool, cfg, &request);
        }
        if str_eq(method, "leave_subnet") {
            let request = match decode_leave_params(params) {
                Ok(p) => p,
                Err(e) => {
                    return Err(e);
                },
            };
            let handler = LeaveSubnetHandler::new();
            return handler.handle(pool, cfg, &request);
        }
        if str_eq(method, "fund") {
            let request = match decode_fund_params(params) {
                Ok(p) => p,
                Err(e) => {
                    return Err(e);
                },
            };
            let handler = FundHandler::new();
            return handler.handle(pool, cfg, &request);
        }
        if str_eq(method, "release") {
            let request = match decode_release_params(params) {
                Ok(p) => p,
                Err(e) => {
                    return Err(e);
                },
            };
            let handler = ReleaseHandler::new();
            return handler.handle(pool, cfg, &request);
        }
        if str_eq(method, "query_validator_set") {
            let request = match decode_query_params(params) {
                Ok(p) => p,
                Err(e) => {
                    return Err(e);
                },
            };
            let handler = QueryValidatorSetHandler::new();
            return handler.handle(pool, cfg, &request);
        }
        if str_eq(method, "create_subnet") {
            let request = match decode_create_params(params) {
                Ok(p) => p,
                Err(e) => {
                    return Err(e);
                },
            };
            let handler = CreateSubnetHandler::new();
            return handler.handle(pool, cfg, &request);
        }
        if str_eq(method, "rpc_subnet") {
            let request = match decode_subnet_params(params) {
                Ok(p) => p,
                Err(e) => {
                    return Err(e);
                },
            };
            let handler = RpcSubnetHandler::new();
            return handler.handle(pool, cfg, &request);
        }
        if str_eq(method, "list_child_subnets") {
            let request = match decode_subnet_params(params) {
                Ok(p) => p,
                Err(e) => {
                    return Err(e);
                },
            };
            let handler = ListSubnetsHandler::new();
            return handler.handle(pool, cfg, &request);
        }
        if str_eq(method, "last_topdown_executed") {
            let request = match decode_subnet_params(params) {
                Ok(p) => p,
                Err(e) => {
                    return Err(e);
                },
            };
            let handler = LastTopDownExecHandler::new();
            return handler.handle(pool, cfg, &request);
        }
        if str_eq(method, "list_bottomup_checkpoints") {
            let request = match decode_checkpoints_params(params) {
                Ok(p) => p,
                Err(e) => {
                    return Err(e);
                },
            };
            let handler = ListBottomUpCheckpointsHandler::new();
            return handler.handle(pool, cfg, &request);
        }
        if str_eq(method, "propagate") {
            let request = match decode_propagate_params(params) {
                Ok(p) => p,
                Err(e) => {
                    return Err(e);
                },
            };
            let handler = PropagateHandler::new();
            return handler.handle(pool, cfg, &request);
        }
        if str_eq(method, "send_cross_msg") {
            let request = match decode_send_cross_params(params) {
                Ok(p) => p,
                Err(e) => {
                    return Err(e);
                },
            };
            let handler = SendCrossMsgHandler::new();
            return handler.handle(pool, cfg, &request);
        }
        if str_eq(method, "send_value") {
            let request = match decode_send_value_params(params) {
                Ok(p) => p,
                Err(e) => {
                    return Err(e);
                },
            };
            let handler = SendValueHandler::new();
            return handler.handle(&request);
        }
        if str_eq(method, "wallet_new") {
            let request = match decode_wallet_new_params(params) {
                Ok(p) => p,
                Err(e) => {
                    return Err(e);
                },
            };
            let handler = WalletNewHandler::new();
            return handler.handle(&request);
        }
        if str_eq(method, "wallet_remove") {
            let request = match decode_wallet_remove_params(params) {
                Ok(p) => p,
                Err(e) => {
                    return Err(e);
                },
            };
            let handler = WalletRemoveHandler::new();
            return handler.handle(&request);
        }
        if str_eq(method, "wallet_import") {
            let request = match decode_wallet_import_params(params) {
                Ok(p) => p,
                Err(e) => {
                    return Err(e);
                },
            };
            let handler = WalletImportHandler::new();
            return handler.handle(&request);
        }
        if str_eq(method, "set_validator_net_addr") {
            let request = match decode_setaddr_params(params) {
                Ok(p) => p,
                Err(e) => {
                    return Err(e);
                },
            };
            let handler = SetValidatorNetAddrHandler::new();
            return handler.handle(pool, cfg, &request);
        }
        if str_eq(method, "kill_subnet") {
            let request = match decode_kill_params(params) {
                Ok(p) => p,
                Err(e) => {
                    return Err(e);
                },
            };
            let handler = KillSubnetHandler::new();
            return handler.handle(pool, cfg, &request);
        }
        Err(RpcError::MethodNotSupported)
    }
}

} // verus!
