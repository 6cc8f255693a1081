use bloom_offchain::context::{
    ExecutionCap, ExecutionContext, HasPoolRefScripts, ReferenceOutputs,
};
use bloom_offchain::entity::{
    AnyEntity, AnyOrder, AnyPool, Baked, CFMMPool, OnChainOrderId, PoolId, PoolVer, SpotOrder,
};
use bloom_offchain::executor::{
    ExecError, ExecutionEff, ExecutionState, LinkedFill, LinkedSwap, Magnet, Redeemer, SideM,
    StateTrans,
};
use bloom_offchain::interpreter::{
    reconcile, CardanoRecipeInterpreter, FinalizedEff, LinkedExecutionRecipe,
    LinkedTerminalInstruction, ReconcileError,
};
use bloom_offchain::ledger::{
    Address, AssetClass, AssetEntry, AssetName, Credential, ExUnits, FinalizedTxOut,
    LedgerOutput, OutputRef, UnspentOutput,
};

fn name(s: &str) -> AssetName {
    let mut bytes = [0u8; 32];
    bytes[..s.len()].copy_from_slice(s.as_bytes());
    AssetName { len: s.len() as u8, bytes }
}

fn token(policy: u8, n: &str) -> AssetClass {
    AssetClass::Token([policy; 28], name(n))
}

fn script_addr(h: u8) -> Address {
    Address { network: 1, payment: Credential::Script([h; 28]), stake: None }
}

fn output(addr: Address, assets: &[(AssetClass, u64)]) -> LedgerOutput {
    LedgerOutput {
        address: addr,
        assets: assets.iter().map(|(a, n)| AssetEntry { asset: *a, amount: *n }).collect(),
        datum: Some(vec![0xd8, 0x79]),
        script_ref: None,
    }
}

fn oref(b: u8, ix: u64) -> OutputRef {
    OutputRef { tx_hash: [b; 32], index: ix }
}

fn balance(o: &LedgerOutput, a: AssetClass) -> u64 {
    o.assets.iter().filter(|e| e.asset == a).map(|e| e.amount).sum()
}

fn unspent(b: u8) -> UnspentOutput {
    UnspentOutput { input: oref(b, 0), output: output(script_addr(b), &[(AssetClass::Native, 5)]) }
}

fn context() -> ExecutionContext {
    ExecutionContext {
        time: 1000,
        execution_caps: ExecutionCap {
            soft: ExUnits { mem: 1, steps: 2 },
            hard: ExUnits { mem: 3, steps: 4 },
        },
        refs: ReferenceOutputs { pool_v1: unspent(0xa1), pool_v2: unspent(0xa2), limit_order: unspent(0xa3) },
        collateral: unspent(0xc0),
        reward_addr: Address { network: 1, payment: Credential::PubKey([0xee; 28]), stake: None },
        network_id: 1,
        order_ex_units: ExUnits { mem: 100, steps: 200 },
        pool_ex_units: ExUnits { mem: 300, steps: 400 },
    }
}

fn asset_a() -> AssetClass {
    token(1, "A")
}

fn asset_b() -> AssetClass {
    token(2, "B")
}

fn order() -> SpotOrder {
    SpotOrder {
        id: OnChainOrderId(oref(7, 0)),
        input_asset: asset_a(),
        output_asset: asset_b(),
        redeemer_cred: Credential::PubKey([0x33; 28]),
    }
}

fn pool() -> CFMMPool {
    CFMMPool {
        id: PoolId([9; 28], name("nft")),
        asset_x: token(3, "X"),
        asset_y: token(4, "Y"),
        reserves_x: 1000,
        reserves_y: 500,
        ver: PoolVer::V2,
    }
}

fn pool_output() -> LedgerOutput {
    output(script_addr(0x50), &[(AssetClass::Native, 2), (token(3, "X"), 1000), (token(4, "Y"), 500)])
}

#[test]
fn fill_active_then_eol() {
    let ctx = context();
    let mut state = ExecutionState::new();
    let src = output(script_addr(0x11), &[(AssetClass::Native, 2), (asset_a(), 100)]);
    let fill = LinkedFill {
        target: order(),
        source: FinalizedTxOut(src.clone(), oref(7, 0)),
        transition: StateTrans::Active(order()),
        removed_input: 40,
        added_output: 25,
    };
    let eff = Magnet(fill).try_exec(&mut state, &ctx).unwrap();
    assert_eq!(state.outputs.len(), 1);
    let succ = state.outputs[0].clone();
    assert_eq!(balance(&succ, asset_a()), 60);
    assert_eq!(balance(&succ, asset_b()), 25);
    assert_eq!(balance(&succ, AssetClass::Native), 2);
    assert_eq!(succ.address, src.address);
    assert_eq!(state.inputs.len(), 1);
    assert_eq!(state.inputs[0].redeemer, Redeemer::SpotExec { successor_ix: 0 });
    assert_eq!(state.inputs[0].ex_units, ExUnits { mem: 100, steps: 200 });
    assert_eq!(eff, ExecutionEff::Updated(AnyEntity::Order(AnyOrder::Spot(order())), succ.clone()));

    let prior = oref(8, 0);
    let mut state2 = ExecutionState::new();
    let fill2 = LinkedFill {
        target: order(),
        source: FinalizedTxOut(succ.clone(), prior),
        transition: StateTrans::EOL,
        removed_input: 60,
        added_output: 0,
    };
    let eff2 = Magnet(fill2).try_exec(&mut state2, &ctx).unwrap();
    assert_eq!(state2.outputs.len(), 0);
    assert_eq!(state2.inputs.len(), 1);
    assert_eq!(state2.inputs[0].out_ref, prior);
    assert_eq!(eff2, ExecutionEff::Eliminated(AnyOrder::Spot(order()), FinalizedTxOut(succ, prior)));
}

#[test]
fn fill_same_asset_in_and_out() {
    let ctx = context();
    let mut state = ExecutionState::new();
    let mut o = order();
    o.output_asset = asset_a();
    let src = output(script_addr(0x11), &[(asset_a(), 100)]);
    let fill = LinkedFill {
        target: AnyOrder::Spot(o),
        source: FinalizedTxOut(src, oref(7, 0)),
        transition: StateTrans::Active(AnyOrder::Spot(o)),
        removed_input: 40,
        added_output: 15,
    };
    Magnet(fill).try_exec(&mut state, &ctx).unwrap();
    assert_eq!(balance(&state.outputs[0], asset_a()), 75);
}

#[test]
fn fill_without_script_fails() {
    let ctx = context();
    let mut state = ExecutionState::new();
    let src = output(
        Address { network: 1, payment: Credential::PubKey([1; 28]), stake: None },
        &[(asset_a(), 100)],
    );
    let fill = LinkedFill {
        target: order(),
        source: FinalizedTxOut(src, oref(7, 0)),
        transition: StateTrans::Active(order()),
        removed_input: 1,
        added_output: 1,
    };
    assert_eq!(Magnet(fill).try_exec(&mut state, &ctx), Err(ExecError::MissingScript));
    assert_eq!(state, ExecutionState::new());
}

#[test]
fn swap_bid_takes_x_and_adds_y() {
    let ctx = context();
    let mut state = ExecutionState::new();
    let swap = LinkedSwap {
        target: pool(),
        source: FinalizedTxOut(pool_output(), oref(5, 1)),
        transition: pool(),
        side: SideM::Bid,
        input: 50,
        output: 24,
    };
    let eff = Magnet(swap).try_exec(&mut state, &ctx).unwrap();
    let produced = state.outputs[0].clone();
    assert_eq!(balance(&produced, token(3, "X")), 976);
    assert_eq!(balance(&produced, token(4, "Y")), 550);
    assert_eq!(balance(&produced, AssetClass::Native), 2);
    assert_eq!(eff, ExecutionEff::Updated(AnyEntity::Pool(AnyPool::CFMM(pool())), produced));
    assert_eq!(state.reference_inputs, vec![unspent(0xa2)]);
    assert_eq!(state.inputs[0].redeemer, Redeemer::PoolSwap);
    assert_eq!(state.inputs[0].ex_units, ExUnits { mem: 300, steps: 400 });
}

#[test]
fn swap_ask_takes_y_and_adds_x() {
    let ctx = context();
    let mut state = ExecutionState::new();
    let swap = LinkedSwap {
        target: AnyPool::CFMM(pool()),
        source: FinalizedTxOut(pool_output(), oref(5, 1)),
        transition: AnyPool::CFMM(pool()),
        side: SideM::Ask,
        input: 50,
        output: 24,
    };
    Magnet(swap).try_exec(&mut state, &ctx).unwrap();
    let produced = &state.outputs[0];
    assert_eq!(balance(produced, token(3, "X")), 1050);
    assert_eq!(balance(produced, token(4, "Y")), 476);
}

#[test]
fn pool_version_selects_reference_script() {
    let ctx = context();
    assert_eq!(ctx.pool_ref_script(PoolVer::V1), unspent(0xa1));
    assert_eq!(ctx.pool_ref_script(PoolVer::V2), unspent(0xa2));
}

fn batch() -> Vec<LinkedTerminalInstruction> {
    let src = output(script_addr(0x11), &[(asset_a(), 100)]);
    vec![
        LinkedTerminalInstruction::Fill(LinkedFill {
            target: AnyOrder::Spot(order()),
            source: FinalizedTxOut(src, oref(7, 0)),
            transition: StateTrans::Active(AnyOrder::Spot(order())),
            removed_input: 40,
            added_output: 25,
        }),
        LinkedTerminalInstruction::Swap(LinkedSwap {
            target: AnyPool::CFMM(pool()),
            source: FinalizedTxOut(pool_output(), oref(5, 1)),
            transition: AnyPool::CFMM(pool()),
            side: SideM::Bid,
            input: 25,
            output: 40,
        }),
    ]
}

#[test]
fn run_consumes_batch_from_its_tail() {
    let mut interp = CardanoRecipeInterpreter;
    let (state, effs, _ctx) = interp.run(LinkedExecutionRecipe(batch()), context()).unwrap();
    assert_eq!(state.inputs.len(), 2);
    assert_eq!(state.inputs[0].out_ref, oref(5, 1));
    assert_eq!(state.inputs[1].out_ref, oref(7, 0));
    assert_eq!(state.inputs[1].redeemer, Redeemer::SpotExec { successor_ix: 1 });
    assert_eq!(state.outputs.len(), 2);
    assert_eq!(balance(&state.outputs[0], token(3, "X")), 960);
    assert_eq!(balance(&state.outputs[1], asset_a()), 60);
    assert!(matches!(effs[0], ExecutionEff::Updated(AnyEntity::Pool(_), _)));
    assert!(matches!(effs[1], ExecutionEff::Updated(AnyEntity::Order(_), _)));
}

#[test]
fn reconcile_places_outputs_by_structure() {
    let mut interp = CardanoRecipeInterpreter;
    let (state, effs, _ctx) = interp.run(LinkedExecutionRecipe(batch()), context()).unwrap();
    let change = output(script_addr(0xee), &[(AssetClass::Native, 9)]);
    let tx_outputs = vec![change, state.outputs[1].clone(), state.outputs[0].clone()];
    let h = [0x42; 32];
    let fin = reconcile(&effs, &tx_outputs, h).unwrap();
    assert_eq!(
        fin[0],
        FinalizedEff::Updated(
            Baked { entity: AnyEntity::Pool(AnyPool::CFMM(pool())), ver: OutputRef { tx_hash: h, index: 2 } },
            FinalizedTxOut(state.outputs[0].clone(), OutputRef { tx_hash: h, index: 2 }),
        )
    );
    assert_eq!(
        fin[1],
        FinalizedEff::Updated(
            Baked { entity: AnyEntity::Order(AnyOrder::Spot(order())), ver: OutputRef { tx_hash: h, index: 1 } },
            FinalizedTxOut(state.outputs[1].clone(), OutputRef { tx_hash: h, index: 1 }),
        )
    );
}

#[test]
fn reconcile_keeps_consumed_reference_of_eliminated() {
    let src = output(script_addr(0x11), &[(asset_a(), 60)]);
    let consumed = FinalizedTxOut(src, oref(8, 3));
    let effs = vec![ExecutionEff::Eliminated(AnyOrder::Spot(order()), consumed.clone())];
    let fin = reconcile(&effs, &vec![], [1; 32]).unwrap();
    assert_eq!(
        fin,
        vec![FinalizedEff::Eliminated(Baked { entity: AnyOrder::Spot(order()), ver: oref(8, 3) }, consumed)]
    );
}

#[test]
fn reconcile_fails_on_unmatched_output() {
    let effs = vec![ExecutionEff::Updated(AnyEntity::Pool(AnyPool::CFMM(pool())), pool_output())];
    let other = output(script_addr(0x50), &[(AssetClass::Native, 2)]);
    assert_eq!(reconcile(&effs, &vec![other], [1; 32]), Err(ReconcileError::UnmatchedOutput));
}

#[test]
fn finalize_hashes_body_with_blake2b() {
    let interp = CardanoRecipeInterpreter;
    let (h, fin) = interp.finalize(&vec![], &vec![], &vec![]).unwrap();
    assert!(fin.is_empty());
    assert_eq!(
        hex_of(&h),
        "0e5751c026e543b2e8ab2eb06099daa1d1e5df47778f7787faab45cdf12fe3a8"
    );
    let (h2, _) = interp.finalize(&vec![], &vec![0x80], &vec![]).unwrap();
    assert_ne!(h2, h);
}

fn hex_of(b: &[u8]) -> String {
    b.iter().map(|x| format!("{:02x}", x)).collect()
}

#[test]
fn swap_without_script_fails() {
    let ctx = context();
    let mut state = ExecutionState::new();
    let mut src = pool_output();
    src.address.payment = Credential::PubKey([1; 28]);
    let swap = LinkedSwap {
        target: AnyPool::CFMM(pool()),
        source: FinalizedTxOut(src, oref(5, 1)),
        transition: AnyPool::CFMM(pool()),
        side: SideM::Bid,
        input: 1,
        output: 1,
    };
    assert_eq!(Magnet(swap).try_exec(&mut state, &ctx), Err(ExecError::MissingScript));
    assert_eq!(state, ExecutionState::new());
}

#[test]
fn run_aborts_whole_batch_on_malformed_source() {
    let mut instructions = batch();
    if let LinkedTerminalInstruction::Fill(f) = &mut instructions[0] {
        f.source.0.address.payment = Credential::PubKey([1; 28]);
    }
    let mut interp = CardanoRecipeInterpreter;
    assert_eq!(interp.run(LinkedExecutionRecipe(instructions), context()).err(), Some(ExecError::MissingScript));
}

#[test]
fn run_empty_batch() {
    let mut interp = CardanoRecipeInterpreter;
    let (state, effs, ctx) = interp.run(LinkedExecutionRecipe(vec![]), context()).unwrap();
    assert_eq!(state, ExecutionState::new());
    assert!(effs.is_empty());
    assert_eq!(ctx, context());
}

#[test]
fn new_asset_is_appended() {
    let mut o = output(script_addr(1), &[(AssetClass::Native, 7)]);
    o.add_asset(asset_b(), 5);
    assert_eq!(o.assets.len(), 2);
    assert_eq!(balance(&o, asset_b()), 5);
    o.sub_asset(asset_b(), 5);
    assert_eq!(balance(&o, asset_b()), 0);
    o.add_asset(asset_a(), 0);
    assert_eq!(o.assets.len(), 2);
}
