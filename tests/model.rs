use bloom_offchain::dao::{splash_ac, MintedToken, MintedTokens, ProtocolTokens, SPLASH_POLICY};
use bloom_offchain::entity::{ExecutorFeePerToken, OnChainOrderId, PoolId, SourceId};
use bloom_offchain::gate::{FlagState, RollbackFlag};
use bloom_offchain::ledger::{AssetClass, AssetName, OutputRef};

#[test]
fn order_key_layout() {
    let id = OnChainOrderId::new([0xab; 32], 0x0102);
    let k = id.into_key();
    assert_eq!(&k[..32], &[0xab; 32]);
    assert_eq!(k[32], 0x02);
    assert_eq!(k[33], 0x01);
    assert!(k[34..].iter().all(|b| *b == 0));
    assert_eq!(OnChainOrderId::from_ref(OutputRef { tx_hash: [0xab; 32], index: 0x0102 }), id);
}

#[test]
fn pool_key_layout() {
    let name = AssetName { len: 2, bytes: [3; 32] };
    let k = PoolId([1; 28], name).into_key();
    assert_eq!(&k[..28], &[1; 28]);
    assert_eq!(&k[28..], &[3; 32]);
}

#[test]
fn pool_id_needs_a_token() {
    let name = AssetName { len: 2, bytes: [3; 32] };
    assert_eq!(PoolId::try_from_asset(AssetClass::Token([1; 28], name)), Ok(PoolId([1; 28], name)));
    assert_eq!(PoolId::try_from_asset(AssetClass::Native), Err(()));
}

#[test]
fn executor_fee_rounds_down() {
    let fee = ExecutorFeePerToken::new(3, 7, AssetClass::Native);
    assert_eq!(fee.get_fee(100), 42);
    assert_eq!(fee.get_fee(0), 0);
    let big = ExecutorFeePerToken::new(u64::MAX, u64::MAX, AssetClass::Native);
    assert_eq!(big.get_fee(u64::MAX), u64::MAX);
}

#[test]
fn source_id_hex() {
    let mut b = [0u8; 32];
    b[0] = 0xab;
    b[31] = 0x01;
    let h = SourceId(b).to_hex();
    assert_eq!(h.len(), 64);
    assert!(h.starts_with("ab00"));
    assert!(h.ends_with("0001"));
    let r = SourceId::random();
    assert_eq!(r.to_hex().len(), 64);
}

#[test]
fn gate_releases_every_waiter_once() {
    let mut g = RollbackFlag::new();
    assert_eq!(g.on_request(1), FlagState::False);
    assert_eq!(g.on_request(2), FlagState::False);
    assert!(g.on_command(false).is_empty());
    assert_eq!(g.on_command(true), vec![1, 2]);
    assert!(g.get());
    assert_eq!(g.on_request(3), FlagState::True);
    assert!(g.on_command(true).is_empty());
    assert!(g.on_command(false).is_empty());
    assert_eq!(g.on_request(4), FlagState::False);
    assert_eq!(g.on_command(true), vec![4]);
}

#[test]
fn splash_token() {
    match splash_ac() {
        AssetClass::Token(p, n) => {
            assert_eq!(p, SPLASH_POLICY);
            assert_eq!(&n.bytes[..n.len as usize], b"SPLASH");
        }
        AssetClass::Native => panic!("expected a token"),
    }
}

#[test]
fn protocol_tokens_from_minted() {
    let t = |b: u8| MintedToken { policy_id: [b; 28], asset_name: AssetName { len: 1, bytes: [b; 32] } };
    let minted = MintedTokens { factory_auth: t(1), ve_factory_auth: t(2), edao_msig: t(3), perm_auth: t(4), gt: t(5) };
    let name = AssetName { len: 1, bytes: [9; 32] };
    let p = ProtocolTokens::from_minted_tokens(minted, [8; 28], name);
    assert_eq!(p.splash_policy, [8; 28]);
    assert_eq!(p.factory_auth_policy, [1; 28]);
    assert_eq!(p.ve_factory_auth_name, t(2).asset_name);
    assert_eq!(p.edao_msig_policy, [3; 28]);
    assert_eq!(p.perm_manager_auth_name, t(4).asset_name);
    assert_eq!(p.gt_policy, [5; 28]);
}
