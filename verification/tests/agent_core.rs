use ipc_agent::config::{BackendKind, ConfigSnapshot, SubnetConfig};
use ipc_agent::dispatch::Handlers;
use ipc_agent::errors::RpcError;
use ipc_agent::handlers::{check_subnet, parse_from, ManagerAction};
use ipc_agent::json::JsonValue;
use ipc_agent::pool::{config_eq, SubnetManagerPool};
use ipc_agent::subnet_id::SubnetID;

fn entry(path: &str, backend: BackendKind, accounts: Vec<&str>) -> SubnetConfig {
    SubnetConfig {
        id: SubnetID::parse(path).unwrap(),
        backend,
        jsonrpc_endpoint: format!("http://127.0.0.1:3030{}", path),
        gateway_addr: None,
        accounts: accounts.into_iter().map(|a| a.to_string()).collect(),
    }
}

fn snapshot(entries: Vec<SubnetConfig>) -> ConfigSnapshot {
    let mut cfg = ConfigSnapshot::empty();
    for e in entries {
        assert!(cfg.add(e));
    }
    cfg
}

#[test]
fn parse_roundtrip_canonical_strings() {
    for s in ["/root", "/root/A", "/root/t01234/t01299", "/a/b/c/d"] {
        let id = SubnetID::parse(s).unwrap();
        assert_eq!(id.to_string(), s);
        let again = SubnetID::parse(&id.to_string()).unwrap();
        assert!(id.equals(&again));
    }
}

#[test]
fn parse_rejects_malformed_paths() {
    for s in ["", "/", "root", "//", "/root/", "/root//a", "/ro ot", "/root/\u{e9}x"] {
        assert!(matches!(SubnetID::parse(s), Err(RpcError::ParseError)), "{s:?}");
    }
}

#[test]
fn parent_drops_last_segment() {
    let id = SubnetID::parse("/root/A/B").unwrap();
    let p = id.parent().unwrap();
    assert_eq!(p.to_string(), "/root/A");
    assert_eq!(p.path_len(), id.path_len() - 1);
    let root = SubnetID::parse("/root").unwrap();
    assert!(root.parent().is_none());
}

#[test]
fn pool_get_builds_once_and_reuses() {
    let cfg = snapshot(vec![entry("/root", BackendKind::Fvm, vec!["f01000"])]);
    let mut pool = SubnetManagerPool::new();
    let id = SubnetID::parse("/root").unwrap();
    let c1 = pool.get(&id, &cfg).unwrap();
    assert_eq!(pool.count(), 1);
    let c2 = pool.get(&id, &cfg).unwrap();
    assert_eq!(pool.count(), 1);
    assert!(config_eq(c1.subnet(), c2.subnet()));
}

#[test]
fn pool_get_unknown_returns_none() {
    let cfg = snapshot(vec![entry("/root", BackendKind::Fvm, vec!["f01000"])]);
    let mut pool = SubnetManagerPool::new();
    let id = SubnetID::parse("/root/missing").unwrap();
    assert!(pool.get(&id, &cfg).is_none());
    assert_eq!(pool.count(), 0);
}

#[test]
fn pool_get_rebuilds_after_config_change() {
    let id = SubnetID::parse("/root").unwrap();
    let mut pool = SubnetManagerPool::new();
    let cfg1 = snapshot(vec![entry("/root", BackendKind::Fvm, vec!["f01000"])]);
    let c1 = pool.get(&id, &cfg1).unwrap();
    assert_eq!(c1.subnet().accounts, vec!["f01000".to_string()]);
    let cfg2 = snapshot(vec![entry("/root", BackendKind::Fvm, vec!["f01777"])]);
    let c2 = pool.get(&id, &cfg2).unwrap();
    assert_eq!(c2.subnet().accounts, vec!["f01777".to_string()]);
    assert_eq!(pool.count(), 1);
    let cfg3 = snapshot(vec![]);
    assert!(pool.get(&id, &cfg3).is_none());
    assert_eq!(pool.count(), 0);
}

#[test]
fn dispatch_unknown_method_not_supported() {
    let handlers = Handlers::new().unwrap();
    let cfg = snapshot(vec![]);
    let mut pool = SubnetManagerPool::new();
    let r = handlers.handle(&mut pool, &cfg, "nonexistent_method", &JsonValue::Null);
    assert!(matches!(r, Err(RpcError::MethodNotSupported)));
}

#[test]
fn dispatch_empty_registry_supports_nothing() {
    let handlers = Handlers::empty_handlers();
    let cfg = snapshot(vec![]);
    let mut pool = SubnetManagerPool::new();
    let r = handlers.handle(&mut pool, &cfg, "join_subnet", &JsonValue::Null);
    assert!(matches!(r, Err(RpcError::MethodNotSupported)));
}

#[test]
fn dispatch_never_registers_wallet_export() {
    let handlers = Handlers::new().unwrap();
    assert!(!handlers.knows("wallet_export"));
    for method in [
        "reload_config",
        "create_subnet",
        "leave_subnet",
        "kill_subnet",
        "join_subnet",
        "rpc_subnet",
        "fund",
        "release",
        "propagate",
        "send_cross_msg",
        "send_value",
        "wallet_new",
        "wallet_remove",
        "wallet_import",
        "wallet_balances",
        "set_validator_net_addr",
        "list_child_subnets",
        "list_bottomup_checkpoints",
        "last_topdown_executed",
        "query_validator_set",
    ] {
        assert!(handlers.knows(method), "{method}");
    }
}

#[test]
fn dispatch_join_malformed_payload_invalid_params() {
    let handlers = Handlers::new().unwrap();
    let cfg = snapshot(vec![]);
    let mut pool = SubnetManagerPool::new();
    // not an object at all
    let r = handlers.handle(&mut pool, &cfg, "join_subnet", &JsonValue::Str("oops".to_string()));
    assert!(matches!(r, Err(RpcError::InvalidParams)));
    // an object with the collateral field of the wrong type
    let bad = JsonValue::Obj(vec![
        ("subnet".to_string(), JsonValue::Str("/root/A".to_string())),
        ("collateral".to_string(), JsonValue::Str("ten".to_string())),
        ("validator_net_addr".to_string(), JsonValue::Str("addr".to_string())),
    ]);
    let r = handlers.handle(&mut pool, &cfg, "join_subnet", &bad);
    assert!(matches!(r, Err(RpcError::InvalidParams)));
}

fn join_payload(subnet: &str, from: Option<&str>, collateral: f64) -> JsonValue {
    let mut fields = vec![
        ("subnet".to_string(), JsonValue::Str(subnet.to_string())),
        ("collateral".to_string(), JsonValue::Num(collateral.to_bits())),
        (
            "validator_net_addr".to_string(),
            JsonValue::Str("/ip4/127.0.0.1/tcp/1234".to_string()),
        ),
    ];
    if let Some(f) = from {
        fields.push(("from".to_string(), JsonValue::Str(f.to_string())));
    }
    JsonValue::Obj(fields)
}

#[test]
fn join_root_subnet_has_no_parent() {
    let handlers = Handlers::new().unwrap();
    let cfg = snapshot(vec![entry("/root", BackendKind::Fvm, vec!["f01000"])]);
    let mut pool = SubnetManagerPool::new();
    let r = handlers.handle(&mut pool, &cfg, "join_subnet", &join_payload("/root", None, 1.0));
    assert!(matches!(r, Err(RpcError::NoParentFound)));
}

#[test]
fn join_with_absent_parent_fails() {
    let handlers = Handlers::new().unwrap();
    let cfg = snapshot(vec![]);
    let mut pool = SubnetManagerPool::new();
    let r = handlers.handle(&mut pool, &cfg, "join_subnet", &join_payload("/root/A", None, 1.0));
    assert!(matches!(r, Err(RpcError::ParentSubnetNotFound)));
}

#[test]
fn join_resolves_parent_and_converts_collateral() {
    let handlers = Handlers::new().unwrap();
    let cfg = snapshot(vec![entry("/root", BackendKind::Fvm, vec!["f01000"])]);
    let mut pool = SubnetManagerPool::new();
    let r = handlers
        .handle(&mut pool, &cfg, "join_subnet", &join_payload("/root/A", None, 2.5))
        .unwrap();
    match r {
        ManagerAction::JoinSubnet { parent, subnet, from, collateral, worker_addr, .. } => {
            assert_eq!(parent.to_string(), "/root");
            assert_eq!(subnet.to_string(), "/root/A");
            assert_eq!(from, "f01000");
            assert_eq!(collateral.nano, 2_500_000_000u128);
            assert_eq!(worker_addr, "f01000");
        }
        other => panic!("unexpected action: {other:?}"),
    }
    // the parent connection is now cached
    assert_eq!(pool.count(), 1);
}

#[test]
fn join_rejects_bad_sender_address() {
    let handlers = Handlers::new().unwrap();
    let cfg = snapshot(vec![entry("/root", BackendKind::Fvm, vec!["f01000"])]);
    let mut pool = SubnetManagerPool::new();
    let r = handlers.handle(
        &mut pool,
        &cfg,
        "join_subnet",
        &join_payload("/root/A", Some("not-an-address"), 1.0),
    );
    assert!(matches!(r, Err(RpcError::ParseError)));
}

#[test]
fn join_without_sender_or_accounts_needs_default() {
    let handlers = Handlers::new().unwrap();
    let cfg = snapshot(vec![entry("/root", BackendKind::Fvm, vec![])]);
    let mut pool = SubnetManagerPool::new();
    let r = handlers.handle(&mut pool, &cfg, "join_subnet", &join_payload("/root/A", None, 1.0));
    assert!(matches!(r, Err(RpcError::NoDefaultAccount)));
}

#[test]
fn join_rejects_negative_collateral() {
    let handlers = Handlers::new().unwrap();
    let cfg = snapshot(vec![entry("/root", BackendKind::Fvm, vec!["f01000"])]);
    let mut pool = SubnetManagerPool::new();
    let r = handlers.handle(&mut pool, &cfg, "join_subnet", &join_payload("/root/A", None, -1.0));
    assert!(matches!(r, Err(RpcError::InvalidAmount)));
}

#[test]
fn kill_resolves_parent() {
    let handlers = Handlers::new().unwrap();
    let cfg = snapshot(vec![entry("/root", BackendKind::Evm, vec![
        "0x00112233445566778899aabbccddeeff00112233",
    ])]);
    let mut pool = SubnetManagerPool::new();
    let payload = JsonValue::Obj(vec![(
        "subnet".to_string(),
        JsonValue::Str("/root/A".to_string()),
    )]);
    let r = handlers.handle(&mut pool, &cfg, "kill_subnet", &payload).unwrap();
    match r {
        ManagerAction::KillSubnet { parent, subnet, from } => {
            assert_eq!(parent.to_string(), "/root");
            assert_eq!(subnet.to_string(), "/root/A");
            assert_eq!(from, "0x00112233445566778899aabbccddeeff00112233");
        }
        other => panic!("unexpected action: {other:?}"),
    }
}

#[test]
fn leave_resolves_parent() {
    let handlers = Handlers::new().unwrap();
    let cfg = snapshot(vec![entry("/root", BackendKind::Fvm, vec!["f01000"])]);
    let mut pool = SubnetManagerPool::new();
    let payload = JsonValue::Obj(vec![(
        "subnet".to_string(),
        JsonValue::Str("/root/A".to_string()),
    )]);
    let r = handlers.handle(&mut pool, &cfg, "leave_subnet", &payload).unwrap();
    match r {
        ManagerAction::LeaveSubnet { parent, subnet, from } => {
            assert_eq!(parent.to_string(), "/root");
            assert_eq!(subnet.to_string(), "/root/A");
            assert_eq!(from, "f01000");
        }
        other => panic!("unexpected action: {other:?}"),
    }
}

fn amount_payload(subnet: &str, amount: f64) -> JsonValue {
    JsonValue::Obj(vec![
        ("subnet".to_string(), JsonValue::Str(subnet.to_string())),
        ("amount".to_string(), JsonValue::Num(amount.to_bits())),
    ])
}

#[test]
fn fund_resolves_parent_and_converts_amount() {
    let handlers = Handlers::new().unwrap();
    let cfg = snapshot(vec![entry("/root", BackendKind::Fvm, vec!["f01000"])]);
    let mut pool = SubnetManagerPool::new();
    let r = handlers
        .handle(&mut pool, &cfg, "fund", &amount_payload("/root/A", 0.25))
        .unwrap();
    match r {
        ManagerAction::Fund { parent, subnet, from, amount } => {
            assert_eq!(parent.to_string(), "/root");
            assert_eq!(subnet.to_string(), "/root/A");
            assert_eq!(from, "f01000");
            assert_eq!(amount.nano, 250_000_000u128);
        }
        other => panic!("unexpected action: {other:?}"),
    }
}

#[test]
fn release_rejects_non_finite_amount() {
    let handlers = Handlers::new().unwrap();
    let cfg = snapshot(vec![entry("/root", BackendKind::Fvm, vec!["f01000"])]);
    let mut pool = SubnetManagerPool::new();
    let r = handlers.handle(
        &mut pool,
        &cfg,
        "release",
        &amount_payload("/root/A", f64::NAN),
    );
    assert!(matches!(r, Err(RpcError::InvalidAmount)));
    let r = handlers
        .handle(&mut pool, &cfg, "release", &amount_payload("/root/A", 1.5))
        .unwrap();
    assert!(matches!(r, ManagerAction::Release { .. }));
}

#[test]
fn query_validator_set_targets_the_subnet_itself() {
    let handlers = Handlers::new().unwrap();
    let cfg = snapshot(vec![entry("/root/A", BackendKind::Fvm, vec!["f01000"])]);
    let mut pool = SubnetManagerPool::new();
    let payload = JsonValue::Obj(vec![(
        "subnet".to_string(),
        JsonValue::Str("/root/A".to_string()),
    )]);
    let r = handlers
        .handle(&mut pool, &cfg, "query_validator_set", &payload)
        .unwrap();
    match r {
        ManagerAction::QueryValidatorSet { subnet } => {
            assert_eq!(subnet.to_string(), "/root/A");
        }
        other => panic!("unexpected action: {other:?}"),
    }
    let missing = JsonValue::Obj(vec![(
        "subnet".to_string(),
        JsonValue::Str("/root/B".to_string()),
    )]);
    let r = handlers.handle(&mut pool, &cfg, "query_validator_set", &missing);
    assert!(matches!(r, Err(RpcError::SubnetNotFound)));
}

fn obj(fields: Vec<(&str, JsonValue)>) -> JsonValue {
    JsonValue::Obj(fields.into_iter().map(|(k, v)| (k.to_string(), v)).collect())
}

fn s(v: &str) -> JsonValue {
    JsonValue::Str(v.to_string())
}

#[test]
fn create_subnet_targets_the_named_parent() {
    let handlers = Handlers::new().unwrap();
    let cfg = snapshot(vec![entry("/root", BackendKind::Fvm, vec!["f01000"])]);
    let mut pool = SubnetManagerPool::new();
    let r = handlers
        .handle(&mut pool, &cfg, "create_subnet", &obj(vec![("parent", s("/root")), ("name", s("mychild"))]))
        .unwrap();
    match r {
        ManagerAction::CreateSubnet { parent, name } => {
            assert_eq!(parent.to_string(), "/root");
            assert_eq!(name, "mychild");
        }
        other => panic!("unexpected action: {other:?}"),
    }
    let r = handlers.handle(
        &mut pool,
        &cfg,
        "create_subnet",
        &obj(vec![("parent", s("/other")), ("name", s("x"))]),
    );
    assert!(matches!(r, Err(RpcError::ParentSubnetNotFound)));
}

#[test]
fn propagate_resolves_parent_without_sender() {
    let handlers = Handlers::new().unwrap();
    let cfg = snapshot(vec![entry("/root", BackendKind::Fvm, vec![])]);
    let mut pool = SubnetManagerPool::new();
    let r = handlers
        .handle(
            &mut pool,
            &cfg,
            "propagate",
            &obj(vec![("subnet", s("/root/A")), ("postbox_msg_id", s("bafymsg"))]),
        )
        .unwrap();
    match r {
        ManagerAction::Propagate { parent, subnet, postbox_msg_id } => {
            assert_eq!(parent.to_string(), "/root");
            assert_eq!(subnet.to_string(), "/root/A");
            assert_eq!(postbox_msg_id, "bafymsg");
        }
        other => panic!("unexpected action: {other:?}"),
    }
}

#[test]
fn send_cross_msg_validates_receiver() {
    let handlers = Handlers::new().unwrap();
    let cfg = snapshot(vec![entry("/root", BackendKind::Fvm, vec!["f01000"])]);
    let mut pool = SubnetManagerPool::new();
    let good = obj(vec![
        ("subnet", s("/root/A")),
        ("to", s("f01234")),
        ("amount", JsonValue::Num(1.5f64.to_bits())),
    ]);
    let r = handlers.handle(&mut pool, &cfg, "send_cross_msg", &good).unwrap();
    match r {
        ManagerAction::SendCrossMsg { parent, subnet, from, to, amount } => {
            assert_eq!(parent.to_string(), "/root");
            assert_eq!(subnet.to_string(), "/root/A");
            assert_eq!(from, "f01000");
            assert_eq!(to, "f01234");
            assert_eq!(amount.nano, 1_500_000_000u128);
        }
        other => panic!("unexpected action: {other:?}"),
    }
    let bad = obj(vec![
        ("subnet", s("/root/A")),
        ("to", s("nowhere")),
        ("amount", JsonValue::Num(1.5f64.to_bits())),
    ]);
    let r = handlers.handle(&mut pool, &cfg, "send_cross_msg", &bad);
    assert!(matches!(r, Err(RpcError::ParseError)));
}

#[test]
fn send_value_needs_no_subnet() {
    let handlers = Handlers::new().unwrap();
    let cfg = snapshot(vec![]);
    let mut pool = SubnetManagerPool::new();
    let good = obj(vec![
        ("from", s("f01000")),
        ("to", s("0x00112233445566778899aabbccddeeff00112233")),
        ("amount", JsonValue::Num(0.5f64.to_bits())),
    ]);
    let r = handlers.handle(&mut pool, &cfg, "send_value", &good).unwrap();
    match r {
        ManagerAction::SendValue { from, to, amount } => {
            assert_eq!(from, "f01000");
            assert_eq!(to, "0x00112233445566778899aabbccddeeff00112233");
            assert_eq!(amount.nano, 500_000_000u128);
        }
        other => panic!("unexpected action: {other:?}"),
    }
    let bad = obj(vec![
        ("from", s("junk")),
        ("to", s("f01000")),
        ("amount", JsonValue::Num(0.5f64.to_bits())),
    ]);
    let r = handlers.handle(&mut pool, &cfg, "send_value", &bad);
    assert!(matches!(r, Err(RpcError::ParseError)));
}

#[test]
fn wallet_requests_check_their_inputs() {
    let handlers = Handlers::new().unwrap();
    let cfg = snapshot(vec![]);
    let mut pool = SubnetManagerPool::new();
    let r = handlers
        .handle(&mut pool, &cfg, "wallet_new", &obj(vec![("key_type", s("secp256k1"))]))
        .unwrap();
    assert!(matches!(r, ManagerAction::WalletNew { key_type } if key_type == "secp256k1"));
    let r = handlers.handle(&mut pool, &cfg, "wallet_new", &obj(vec![("key_type", s("rsa"))]));
    assert!(matches!(r, Err(RpcError::ParseError)));
    let r = handlers
        .handle(
            &mut pool,
            &cfg,
            "wallet_remove",
            &obj(vec![("wallet_type", s("fvm")), ("address", s("f01234"))]),
        )
        .unwrap();
    assert!(matches!(r, ManagerAction::WalletRemove { backend: BackendKind::Fvm, address } if address == "f01234"));
    let r = handlers.handle(
        &mut pool,
        &cfg,
        "wallet_remove",
        &obj(vec![("wallet_type", s("evm")), ("address", s("f01234"))]),
    );
    assert!(matches!(r, Err(RpcError::ParseError)));
    let r = handlers
        .handle(
            &mut pool,
            &cfg,
            "wallet_import",
            &obj(vec![("wallet_type", s("evm")), ("key_info", s("example key material"))]),
        )
        .unwrap();
    assert!(matches!(r, ManagerAction::WalletImport { backend: BackendKind::Evm, .. }));
}

#[test]
fn set_validator_net_addr_resolves_parent() {
    let handlers = Handlers::new().unwrap();
    let cfg = snapshot(vec![entry("/root", BackendKind::Fvm, vec!["f01000"])]);
    let mut pool = SubnetManagerPool::new();
    let r = handlers
        .handle(
            &mut pool,
            &cfg,
            "set_validator_net_addr",
            &obj(vec![
                ("subnet", s("/root/A")),
                ("validator_net_addr", s("/ip4/10.0.0.1/tcp/1347")),
            ]),
        )
        .unwrap();
    match r {
        ManagerAction::SetValidatorNetAddr { parent, subnet, from, validator_net_addr } => {
            assert_eq!(parent.to_string(), "/root");
            assert_eq!(subnet.to_string(), "/root/A");
            assert_eq!(from, "f01000");
            assert_eq!(validator_net_addr, "/ip4/10.0.0.1/tcp/1347");
        }
        other => panic!("unexpected action: {other:?}"),
    }
}

#[test]
fn subnet_queries_target_the_subnet_itself() {
    let handlers = Handlers::new().unwrap();
    let cfg = snapshot(vec![entry("/root/A", BackendKind::Fvm, vec![])]);
    let mut pool = SubnetManagerPool::new();
    let payload = obj(vec![("subnet", s("/root/A"))]);
    let r = handlers.handle(&mut pool, &cfg, "rpc_subnet", &payload).unwrap();
    assert!(matches!(r, ManagerAction::RpcSubnet { subnet } if subnet.to_string() == "/root/A"));
    let r = handlers.handle(&mut pool, &cfg, "list_child_subnets", &payload).unwrap();
    assert!(
        matches!(r, ManagerAction::ListChildSubnets { subnet } if subnet.to_string() == "/root/A")
    );
    let r = handlers.handle(&mut pool, &cfg, "last_topdown_executed", &payload).unwrap();
    assert!(
        matches!(r, ManagerAction::LastTopDownExecuted { subnet } if subnet.to_string() == "/root/A")
    );
    let missing = obj(vec![("subnet", s("/root/B"))]);
    let r = handlers.handle(&mut pool, &cfg, "rpc_subnet", &missing);
    assert!(matches!(r, Err(RpcError::SubnetNotFound)));
}

#[test]
fn checkpoint_listing_needs_whole_epochs() {
    let handlers = Handlers::new().unwrap();
    let cfg = snapshot(vec![entry("/root/A", BackendKind::Fvm, vec![])]);
    let mut pool = SubnetManagerPool::new();
    let good = obj(vec![
        ("subnet", s("/root/A")),
        ("from_epoch", JsonValue::Num(100.0f64.to_bits())),
        ("to_epoch", JsonValue::Num(250.0f64.to_bits())),
    ]);
    let r = handlers.handle(&mut pool, &cfg, "list_bottomup_checkpoints", &good).unwrap();
    match r {
        ManagerAction::ListBottomUpCheckpoints { subnet, from_epoch, to_epoch } => {
            assert_eq!(subnet.to_string(), "/root/A");
            assert_eq!(from_epoch, 100);
            assert_eq!(to_epoch, 250);
        }
        other => panic!("unexpected action: {other:?}"),
    }
    let fractional = obj(vec![
        ("subnet", s("/root/A")),
        ("from_epoch", JsonValue::Num(100.5f64.to_bits())),
        ("to_epoch", JsonValue::Num(250.0f64.to_bits())),
    ]);
    let r = handlers.handle(&mut pool, &cfg, "list_bottomup_checkpoints", &fractional);
    assert!(matches!(r, Err(RpcError::InvalidParams)));
}

#[test]
fn reload_config_is_an_action() {
    let handlers = Handlers::new().unwrap();
    let cfg = snapshot(vec![]);
    let mut pool = SubnetManagerPool::new();
    let r = handlers.handle(&mut pool, &cfg, "reload_config", &JsonValue::Null).unwrap();
    assert!(matches!(r, ManagerAction::ReloadConfig));
}

#[test]
fn check_subnet_detects_mismatch() {
    let e = entry("/root", BackendKind::Fvm, vec![]);
    let same = SubnetID::parse("/root").unwrap();
    let other = SubnetID::parse("/root/A").unwrap();
    assert!(check_subnet(&e, &same).is_ok());
    assert!(matches!(check_subnet(&e, &other), Err(RpcError::SubnetMismatch)));
}

#[test]
fn parse_from_validates_for_backend() {
    let fvm = entry("/root", BackendKind::Fvm, vec!["f01000"]);
    assert_eq!(parse_from(&fvm, &Some("f01234".to_string())).unwrap(), "f01234");
    assert_eq!(parse_from(&fvm, &Some("t01234".to_string())).unwrap(), "t01234");
    assert!(matches!(
        parse_from(&fvm, &Some("notanaddress".to_string())),
        Err(RpcError::ParseError)
    ));
    assert_eq!(parse_from(&fvm, &None).unwrap(), "f01000");
    let evm = entry("/root/e", BackendKind::Evm, vec![]);
    assert_eq!(
        parse_from(&evm, &Some("0xABCDEFabcdef0123456789aabbccddeeff001122".to_string()))
            .unwrap(),
        "0xABCDEFabcdef0123456789aabbccddeeff001122"
    );
    assert!(matches!(
        parse_from(&evm, &Some("0x1234".to_string())),
        Err(RpcError::ParseError)
    ));
    assert!(matches!(parse_from(&evm, &None), Err(RpcError::NoDefaultAccount)));
}

#[test]
fn error_messages_render() {
    assert_eq!(RpcError::MethodNotSupported.describe(), "method not supported");
    assert_eq!(RpcError::NoParentFound.describe(), "no parent found");
    assert_eq!(RpcError::SubnetNotFound.describe(), "target subnet not found");
    assert_eq!(RpcError::BackendError("boom".to_string()).describe(), "boom");
}
