use ipc_agent::amount::{token_amount_from_f64_bits, TokenAmount};
use ipc_agent::config::{BackendKind, ConfigSnapshot, SubnetConfig};
use ipc_agent::errors::RpcError;
use ipc_agent::subnet_id::SubnetID;
use ipc_agent::wallet::{aggregate_balances, plan_balance_queries, BalanceOutcome, BalanceStatus};
use ipc_agent::address::{is_evm_address, is_fvm_address};

fn to_token_amount(f: f64) -> Result<TokenAmount, RpcError> {
    token_amount_from_f64_bits(f.to_bits())
}

#[test]
fn test_amount() {
    let amount = to_token_amount(1000000.1f64).unwrap();
    assert_eq!(amount, TokenAmount::from_nano(1000000100000000u128));
}

#[test]
fn amount_truncates_below_one_nano() {
    assert_eq!(to_token_amount(0.0000000009).unwrap(), TokenAmount::from_nano(0));
    assert_eq!(to_token_amount(0.0000000019).unwrap(), TokenAmount::from_nano(1));
}

#[test]
fn amount_exact_values() {
    assert_eq!(to_token_amount(0.0).unwrap(), TokenAmount::from_nano(0));
    assert_eq!(to_token_amount(1.0).unwrap(), TokenAmount::from_nano(1_000_000_000));
    assert_eq!(to_token_amount(2.5).unwrap(), TokenAmount::from_nano(2_500_000_000));
    assert_eq!(
        to_token_amount(123.456789123).unwrap(),
        TokenAmount::from_nano(123_456_789_123)
    );
}

#[test]
fn amount_matches_float_semantics_broadly() {
    // the verified conversion must agree with what the machine's own
    // float arithmetic and saturating cast produce
    let mut x = 0.000000001f64;
    while x < 1.0e25 {
        let expected = f64::trunc(x * 1.0e9) as u128;
        assert_eq!(to_token_amount(x).unwrap(), TokenAmount::from_nano(expected), "{x}");
        x *= 3.7;
    }
}

#[test]
fn amount_rejects_negative_and_non_finite() {
    assert!(matches!(to_token_amount(-1.5), Err(RpcError::InvalidAmount)));
    assert!(matches!(to_token_amount(-0.000000001), Err(RpcError::InvalidAmount)));
    assert!(matches!(to_token_amount(f64::NAN), Err(RpcError::InvalidAmount)));
    assert!(matches!(to_token_amount(f64::INFINITY), Err(RpcError::InvalidAmount)));
    assert!(matches!(to_token_amount(f64::NEG_INFINITY), Err(RpcError::InvalidAmount)));
    // a negative zero still denotes zero
    assert_eq!(to_token_amount(-0.0).unwrap(), TokenAmount::from_nano(0));
}

fn entry(path: &str, accounts: Vec<&str>) -> SubnetConfig {
    SubnetConfig {
        id: SubnetID::parse(path).unwrap(),
        backend: BackendKind::Fvm,
        jsonrpc_endpoint: "http://127.0.0.1:3030/json_rpc".to_string(),
        gateway_addr: Some("f064".to_string()),
        accounts: accounts.into_iter().map(|a| a.to_string()).collect(),
    }
}

#[test]
fn balance_plan_covers_configured_subnets() {
    let mut cfg = ConfigSnapshot::empty();
    assert!(cfg.add(entry("/root", vec!["f01000"])));
    assert!(cfg.add(entry("/root/A", vec![])));
    assert!(cfg.add(entry("/root/B", vec!["f01002", "f01003"])));
    let queries = plan_balance_queries(&cfg);
    assert_eq!(queries.len(), 2);
    assert_eq!(queries[0].subnet.to_string(), "/root");
    assert_eq!(queries[0].address, "f01000");
    assert_eq!(queries[1].subnet.to_string(), "/root/B");
    assert_eq!(queries[1].address, "f01002");
}

#[test]
fn one_failed_backend_keeps_other_balances() {
    let outcomes = vec![
        BalanceOutcome {
            subnet: SubnetID::parse("/root").unwrap(),
            address: "f01000".to_string(),
            result: Ok(TokenAmount::from_nano(42)),
        },
        BalanceOutcome {
            subnet: SubnetID::parse("/root/A").unwrap(),
            address: "f01001".to_string(),
            result: Err("connection refused".to_string()),
        },
        BalanceOutcome {
            subnet: SubnetID::parse("/root/B").unwrap(),
            address: "f01002".to_string(),
            result: Ok(TokenAmount::from_nano(7)),
        },
    ];
    let reports = aggregate_balances(&outcomes);
    assert_eq!(reports.len(), 3);
    assert!(matches!(&reports[0].status, BalanceStatus::Available(a) if a.nano == 42));
    assert!(
        matches!(&reports[1].status, BalanceStatus::Failed(m) if m == "connection refused")
    );
    assert_eq!(reports[1].subnet.to_string(), "/root/A");
    assert!(matches!(&reports[2].status, BalanceStatus::Available(a) if a.nano == 7));
}

#[test]
fn fvm_address_check_consults_the_chain_parser() {
    // a well-formed ID address parses; mangling it must be noticed
    assert!(is_fvm_address("f01234"));
    assert!(is_fvm_address("t01234"));
    assert!(!is_fvm_address("f0"));
    assert!(!is_fvm_address("g01234"));
    assert!(!is_fvm_address("f01234x"));
    // a secp256k1 address carries a checksum: damage must be noticed
    assert!(!is_fvm_address("f1aaaaaaaaaaaaaaaaaaaaaaaaaaaaaaaaaaaaaaa"));
    assert!(is_evm_address("0x00112233445566778899aabbccddeeff00112233"));
    assert!(!is_evm_address("0x0011"));
    assert!(!is_evm_address("0x00112233445566778899aabbccddeeff0011223g"));
}
