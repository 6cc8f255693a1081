use bloom_offchain::entity::{AnyPool, Baked, CFMMPool, OnChainEntity, PoolId, PoolVer};
use bloom_offchain::ledger::{AssetClass, AssetName, OutputRef};
use bloom_offchain::repo::{
    index_key, Confirmed, InMemoryEntityRepo, NoopEntityRepo, Predicted, Traced, Unconfirmed,
};

fn pool_state(ix: u64, reserves_x: u64) -> Baked<AnyPool> {
    let p = CFMMPool {
        id: PoolId([9; 28], AssetName { len: 3, bytes: [7; 32] }),
        asset_x: AssetClass::Native,
        asset_y: AssetClass::Token([4; 28], AssetName { len: 1, bytes: [1; 32] }),
        reserves_x,
        reserves_y: 10,
        ver: PoolVer::V1,
    };
    Baked { entity: AnyPool::CFMM(p), ver: OutputRef { tx_hash: [ix as u8; 32], index: ix } }
}

#[test]
fn index_key_prefixes_entity_key() {
    let mut id = [0u8; 60];
    for (i, b) in id.iter_mut().enumerate() {
        *b = i as u8;
    }
    let k = index_key(3, id);
    assert_eq!(k[0], 3);
    assert_eq!(&k[1..], &id[..]);
}

#[test]
fn predicted_chain_rolls_back_step_by_step() {
    let mut repo: InMemoryEntityRepo<Baked<AnyPool>> = InMemoryEntityRepo::new();
    let s0 = pool_state(0, 100);
    let s1 = pool_state(1, 110);
    let s2 = pool_state(2, 120);
    let eid = s0.get_self_ref();
    repo.put_confirmed(Confirmed(s0));
    repo.put_predicted(Traced { state: Predicted(s1), prev_state_id: Some(s0.ver) });
    repo.put_predicted(Traced { state: Predicted(s2), prev_state_id: Some(s1.ver) });
    assert_eq!(repo.get_last_predicted(eid), Some(Predicted(s2)));
    assert_eq!(repo.get_prediction_predecessor(s2.ver), Some(s1.ver));

    repo.invalidate(s2.ver, eid);
    assert_eq!(repo.get_last_confirmed(eid), Some(Confirmed(s1)));
    assert_eq!(repo.get_last_predicted(eid), None);
    assert!(!repo.may_exist(s2.ver));
    assert_eq!(repo.get_prediction_predecessor(s2.ver), None);

    repo.invalidate(s1.ver, eid);
    assert_eq!(repo.get_last_confirmed(eid), Some(Confirmed(s0)));
    assert_eq!(repo.get_state(s0.ver), Some(s0));
}

#[test]
fn invalidate_root_clears_confirmed_and_repeats_as_no_op() {
    let mut repo: InMemoryEntityRepo<Baked<AnyPool>> = InMemoryEntityRepo::new();
    let s0 = pool_state(0, 100);
    let s1 = pool_state(1, 110);
    let eid = s0.get_self_ref();
    repo.put_confirmed(Confirmed(s0));
    repo.put_unconfirmed(Unconfirmed(s1));
    assert_eq!(repo.get_last_unconfirmed(eid), Some(Unconfirmed(s1)));
    repo.invalidate(s1.ver, eid);
    assert_eq!(repo.get_last_confirmed(eid), None);
    assert_eq!(repo.get_last_unconfirmed(eid), None);
    assert!(repo.may_exist(s0.ver));
    repo.invalidate(s1.ver, eid);
    assert_eq!(repo.get_last_confirmed(eid), None);
    assert!(repo.may_exist(s0.ver));
    assert_eq!(repo.get_state(s1.ver), None);
}

#[test]
fn latest_prediction_wins() {
    let mut repo: InMemoryEntityRepo<Baked<AnyPool>> = InMemoryEntityRepo::new();
    let s1 = pool_state(1, 110);
    let s2 = pool_state(2, 120);
    let eid = s1.get_self_ref();
    repo.put_predicted(Traced { state: Predicted(s1), prev_state_id: None });
    assert_eq!(repo.get_last_predicted(eid), Some(Predicted(s1)));
    repo.put_predicted(Traced { state: Predicted(s2), prev_state_id: Some(s1.ver) });
    assert_eq!(repo.get_last_predicted(eid), Some(Predicted(s2)));
    assert_eq!(repo.get_last_predicted(eid), Some(Predicted(s2)));
}

#[test]
fn eliminate_clears_every_tier() {
    let mut repo: InMemoryEntityRepo<Baked<AnyPool>> = InMemoryEntityRepo::new();
    let s1 = pool_state(1, 110);
    let eid = s1.get_self_ref();
    repo.put_confirmed(Confirmed(s1));
    repo.put_predicted(Traced { state: Predicted(s1), prev_state_id: Some(pool_state(0, 1).ver) });
    repo.put_unconfirmed(Unconfirmed(s1));
    repo.eliminate(s1);
    assert_eq!(repo.get_last_confirmed(eid), None);
    assert_eq!(repo.get_last_predicted(eid), None);
    assert_eq!(repo.get_last_unconfirmed(eid), None);
    assert_eq!(repo.get_prediction_predecessor(s1.ver), None);
    assert!(!repo.may_exist(s1.ver));
}

#[test]
fn unknown_entity_is_absent() {
    let repo: InMemoryEntityRepo<Baked<AnyPool>> = InMemoryEntityRepo::new();
    assert_eq!(repo.get_last_confirmed([5; 60]), None);
    assert_eq!(repo.get_state(OutputRef { tx_hash: [5; 32], index: 5 }), None);
}

#[test]
fn noop_repo_finds_nothing() {
    let mut repo = NoopEntityRepo;
    let s = pool_state(1, 1);
    repo.put_confirmed(Confirmed(s));
    assert_eq!(repo.get_last_confirmed::<Baked<AnyPool>>(s.get_self_ref()), None);
    assert!(!repo.may_exist(s.ver));
    assert_eq!(repo.get_state::<Baked<AnyPool>>(s.ver), None);
}
