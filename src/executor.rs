//! Batch executor: turns one linked instruction into build-state changes.
use vstd::prelude::*;

use crate::context::{HasPoolRefScripts, HasScriptBudgets};
use crate::entity::{AnyEntity, AnyOrder, AnyPool, CFMMPool, SpotOrder};
use crate::ledger::{
    lemma_add_asset_balance, lemma_sub_asset_balance, payment_script, AssetClass, ExUnits,
    FinalizedTxOut, LedgerOutput, OutputRef, OutputView, UnspentOutput,
};

verus! {

/// How an order leaves a fill: re-posted with new balances, or fully consumed.
#[derive(Clone, Copy, Debug, PartialEq, Eq, Hash)]
pub enum StateTrans<T> {
    Active(T),
    EOL,
}

/// Side of a trade against a pool.
#[derive(Clone, Copy, Debug, PartialEq, Eq, Hash)]
pub enum SideM {
    Bid,
    Ask,
}

/// A fill bound to the live output of its order.
#[derive(Clone, Debug, PartialEq, Eq)]
pub struct LinkedFill<Fr> {
    pub target: Fr,
    pub source: FinalizedTxOut,
    pub transition: StateTrans<Fr>,
    pub removed_input: u64,
    pub added_output: u64,
}

/// A swap bound to the live output of its pool.
#[derive(Clone, Debug, PartialEq, Eq)]
pub struct LinkedSwap<Pl> {
    pub target: Pl,
    pub source: FinalizedTxOut,
    pub transition: Pl,
    pub side: SideM,
    pub input: u64,
    pub output: u64,
}

/// Data handed to a script when its input is spent.
#[derive(Clone, Copy, Debug, PartialEq, Eq, Hash)]
pub enum Redeemer {
    /// An order spend; names the position of the order's successor output.
    SpotExec { successor_ix: u16 },
    PoolSwap,
}

/// Redeemer of an order spend whose successor sits at `successor_ix`.
pub fn spot_exec_redeemer(successor_ix: u16) -> (r: Redeemer)
    ensures
        r == (Redeemer::SpotExec { successor_ix }),
{
    Redeemer::SpotExec { successor_ix }
}

/// A script-guarded input of the transaction under construction.
#[derive(Clone, Debug, PartialEq, Eq)]
pub struct ScriptInput {
    pub out_ref: OutputRef,
    pub consumed: LedgerOutput,
    pub script_hash: [u8; 28],
    pub redeemer: Redeemer,
    pub ex_units: ExUnits,
}

pub struct InputView {
    pub out_ref: OutputRef,
    pub consumed: OutputView,
    pub script_hash: [u8; 28],
    pub redeemer: Redeemer,
    pub ex_units: ExUnits,
}

impl View for ScriptInput {
    type V = InputView;

    open spec fn view(&self) -> InputView {
        InputView {
            out_ref: self.out_ref,
            consumed: self.consumed@,
            script_hash: self.script_hash,
            redeemer: self.redeemer,
            ex_units: self.ex_units,
        }
    }
}

/// The transaction under construction: inputs, outputs, reference inputs.
#[derive(Clone, Debug, PartialEq, Eq)]
pub struct ExecutionState {
    pub inputs: Vec<ScriptInput>,
    pub outputs: Vec<LedgerOutput>,
    pub reference_inputs: Vec<UnspentOutput>,
}

pub struct StateView {
    pub inputs: Seq<InputView>,
    pub outputs: Seq<OutputView>,
    pub reference_inputs: Seq<(OutputRef, OutputView)>,
}

impl View for ExecutionState {
    type V = StateView;

    open spec fn view(&self) -> StateView {
        StateView {
            inputs: self.inputs@.map_values(|i: ScriptInput| i@),
            outputs: self.outputs@.map_values(|o: LedgerOutput| o@),
            reference_inputs: self.reference_inputs@.map_values(|u: UnspentOutput| u.view_pair()),
        }
    }
}

impl ExecutionState {
    pub fn new() -> (r: ExecutionState)
        ensures
            r@.inputs.len() == 0,
            r@.outputs.len() == 0,
            r@.reference_inputs.len() == 0,
    {
        ExecutionState { inputs: Vec::new(), outputs: Vec::new(), reference_inputs: Vec::new() }
    }

    fn add_input(&mut self, i: ScriptInput)
        ensures
            final(self)@ == (StateView { inputs: old(self)@.inputs.push(i@), ..old(self)@ }),
    {
        self.inputs.push(i);
        assert(self@.inputs =~= old(self)@.inputs.push(i@));
        assert(self@.outputs =~= old(self)@.outputs);
        assert(self@.reference_inputs =~= old(self)@.reference_inputs);
    }

    fn add_output(&mut self, o: LedgerOutput)
        ensures
            final(self)@ == (StateView { outputs: old(self)@.outputs.push(o@), ..old(self)@ }),
    {
        self.outputs.push(o);
        assert(self@.inputs =~= old(self)@.inputs);
        assert(self@.outputs =~= old(self)@.outputs.push(o@));
        assert(self@.reference_inputs =~= old(self)@.reference_inputs);
    }

    fn add_reference_input(&mut self, u: UnspentOutput)
        ensures
            final(self)@ == (StateView {
                reference_inputs: old(self)@.reference_inputs.push(u.view_pair()),
                ..old(self)@
            }),
    {
        self.reference_inputs.push(u);
        assert(self@.inputs =~= old(self)@.inputs);
        assert(self@.outputs =~= old(self)@.outputs);
        assert(self@.reference_inputs =~= old(self)@.reference_inputs.push(u.view_pair()));
    }
}

/// What one instruction did to its entity, before the transaction is final.
#[derive(Clone, Debug, PartialEq, Eq)]
pub enum ExecutionEff {
    /// The entity lives on in a new output.
    Updated(AnyEntity, LedgerOutput),
    /// The order is gone; it carries the output it was consumed from.
    Eliminated(AnyOrder, FinalizedTxOut),
}

pub enum EffView {
    Updated(AnyEntity, OutputView),
    Eliminated(AnyOrder, OutputView, OutputRef),
}

impl View for ExecutionEff {
    type V = EffView;

    open spec fn view(&self) -> EffView {
        match self {
            ExecutionEff::Updated(e, o) => EffView::Updated(*e, o@),
            ExecutionEff::Eliminated(ord, f) => EffView::Eliminated(*ord, f.0@, f.1),
        }
    }
}

/// The instruction could not be executed.
#[derive(Clone, Copy, Debug, PartialEq, Eq, Hash)]
pub enum ExecError {
    /// The source output is not guarded by a script.
    MissingScript,
}

/// The output an order leaves after `removed` input units go and `added` output units come.
pub open spec fn fill_candidate(src: OutputView, o: SpotOrder, removed: u64, added: u64) -> OutputView {
    src.with_sub(o.input_asset, removed).with_add(o.output_asset, added)
}

/// A fill whose amounts fit the source output.
pub open spec fn fill_fits(src: OutputView, o: SpotOrder, removed: u64, added: u64) -> bool {
    &&& src.wf()
    &&& removed <= src.balance_of(o.input_asset)
    &&& src.with_sub(o.input_asset, removed).balance_of(o.output_asset) + added <= u64::MAX
}

/// The assets a swap takes out of and puts into a pool, by side.
pub open spec fn swap_assets(p: CFMMPool, side: SideM) -> (AssetClass, AssetClass) {
    match side {
        SideM::Bid => (p.asset_x, p.asset_y),
        SideM::Ask => (p.asset_y, p.asset_x),
    }
}

/// The pool output after a swap.
pub open spec fn swap_produced(src: OutputView, p: CFMMPool, side: SideM, input: u64, output: u64) -> OutputView {
    let (removed, added) = swap_assets(p, side);
    src.with_sub(removed, output).with_add(added, input)
}

/// A swap whose amounts fit the source output.
pub open spec fn swap_fits(src: OutputView, p: CFMMPool, side: SideM, input: u64, output: u64) -> bool {
    let (removed, added) = swap_assets(p, side);
    &&& src.wf()
    &&& output <= src.balance_of(removed)
    &&& src.with_sub(removed, output).balance_of(added) + input <= u64::MAX
}

pub open spec fn spec_order_of(o: AnyOrder) -> SpotOrder {
    match o {
        AnyOrder::Spot(s) => s,
    }
}

pub open spec fn spec_pool_of(p: AnyPool) -> CFMMPool {
    match p {
        AnyPool::CFMM(c) => c,
    }
}

pub open spec fn spec_trans_of(t: StateTrans<AnyOrder>) -> StateTrans<SpotOrder> {
    match t {
        StateTrans::Active(AnyOrder::Spot(o)) => StateTrans::Active(o),
        StateTrans::EOL => StateTrans::EOL,
    }
}

impl<Fr> LinkedFill<Fr> {
    pub open spec fn fits(self, o: SpotOrder) -> bool {
        fill_fits(self.source.0@, o, self.removed_input, self.added_output)
    }
}

impl<Pl> LinkedSwap<Pl> {
    pub open spec fn fits(self, p: CFMMPool) -> bool {
        swap_fits(self.source.0@, p, self.side, self.input, self.output)
    }
}

/// Executes instructions against the transaction under construction.
pub struct Magnet<T>(pub T);

impl Magnet<LinkedFill<SpotOrder>> {
    /// Spends the order's output and, if the order stays active, re-posts it with the new
    /// balances at the next output position. A fully consumed order leaves no output.
    pub fn try_exec<Ctx: HasScriptBudgets>(
        self,
        state: &mut ExecutionState,
        ctx: &Ctx,
    ) -> (r: Result<ExecutionEff, ExecError>)
        requires
            self.0.fits(self.0.target),
            old(state)@.outputs.len() <= u16::MAX,
        ensures
            ({
                let f = self.0;
                let src = f.source.0@;
                let cand = fill_candidate(src, f.target, f.removed_input, f.added_output);
                let input = InputView {
                    out_ref: f.source.1,
                    consumed: src,
                    script_hash: payment_script(src.address)->0,
                    redeemer: Redeemer::SpotExec { successor_ix: old(state)@.outputs.len() as u16 },
                    ex_units: ctx.order_units_spec(),
                };
                match payment_script(src.address) {
                    None => r == Err::<ExecutionEff, ExecError>(ExecError::MissingScript) && final(state)@ == old(state)@,
                    Some(_) => r is Ok && final(state)@.inputs == old(state)@.inputs.push(input)
                        && final(state)@.reference_inputs == old(state)@.reference_inputs
                        && match f.transition {
                        StateTrans::Active(o2) => {
                            &&& final(state)@.outputs == old(state)@.outputs.push(cand)
                            &&& r->Ok_0@ == EffView::Updated(AnyEntity::Order(AnyOrder::Spot(o2)), cand)
                        },
                        StateTrans::EOL => {
                            &&& final(state)@.outputs == old(state)@.outputs
                            &&& r->Ok_0@ == EffView::Eliminated(AnyOrder::Spot(f.target), src, f.source.1)
                        },
                    },
                }
            }),
    {
        let Magnet(LinkedFill { target: ord, source, transition, removed_input, added_output }) =
            self;
        let FinalizedTxOut(consumed_out, in_ref) = source;
        let script_hash = match consumed_out.script_hash() {
            Some(h) => h,
            None => return Err(ExecError::MissingScript),
        };
        let successor_ix = state.outputs.len();
        let order_in = ScriptInput {
            out_ref: in_ref,
            consumed: consumed_out.duplicate(),
            script_hash,
            redeemer: spot_exec_redeemer(successor_ix as u16),
            ex_units: ctx.order_units(),
        };
        state.add_input(order_in);
        match transition {
            StateTrans::Active(next) => {
                let mut candidate = consumed_out.duplicate();
                candidate.sub_asset(ord.input_asset, removed_input);
                candidate.add_asset(ord.output_asset, added_output);
                let out = candidate.duplicate();
                state.add_output(candidate);
                Ok(ExecutionEff::Updated(AnyEntity::Order(AnyOrder::Spot(next)), out))
            },
            StateTrans::EOL => {
                Ok(ExecutionEff::Eliminated(AnyOrder::Spot(ord), FinalizedTxOut(consumed_out, in_ref)))
            },
        }
    }
}

impl Magnet<LinkedFill<AnyOrder>> {
    /// Routes a fill to the rule of its order's kind.
    pub fn try_exec<Ctx: HasScriptBudgets>(
        self,
        state: &mut ExecutionState,
        ctx: &Ctx,
    ) -> (r: Result<ExecutionEff, ExecError>)
        requires
            self.0.fits(spec_order_of(self.0.target)),
            old(state)@.outputs.len() <= u16::MAX,
        ensures
            ({
                let f = self.0;
                let o = spec_order_of(f.target);
                let src = f.source.0@;
                let cand = fill_candidate(src, o, f.removed_input, f.added_output);
                let input = InputView {
                    out_ref: f.source.1,
                    consumed: src,
                    script_hash: payment_script(src.address)->0,
                    redeemer: Redeemer::SpotExec { successor_ix: old(state)@.outputs.len() as u16 },
                    ex_units: ctx.order_units_spec(),
                };
                match payment_script(src.address) {
                    None => r == Err::<ExecutionEff, ExecError>(ExecError::MissingScript) && final(state)@ == old(state)@,
                    Some(_) => r is Ok && final(state)@.inputs == old(state)@.inputs.push(input)
                        && final(state)@.reference_inputs == old(state)@.reference_inputs
                        && match spec_trans_of(f.transition) {
                        StateTrans::Active(o2) => {
                            &&& final(state)@.outputs == old(state)@.outputs.push(cand)
                            &&& r->Ok_0@ == EffView::Updated(AnyEntity::Order(AnyOrder::Spot(o2)), cand)
                        },
                        StateTrans::EOL => {
                            &&& final(state)@.outputs == old(state)@.outputs
                            &&& r->Ok_0@ == EffView::Eliminated(AnyOrder::Spot(o), src, f.source.1)
                        },
                    },
                }
            }),
    {
        let Magnet(LinkedFill { target, source, transition, removed_input, added_output }) = self;
        match target {
            AnyOrder::Spot(o) => {
                let transition = match transition {
                    StateTrans::Active(AnyOrder::Spot(o2)) => StateTrans::Active(o2),
                    StateTrans::EOL => StateTrans::EOL,
                };
                Magnet(LinkedFill { target: o, source, transition, removed_input, added_output }).try_exec(state, ctx)
            },
        }
    }
}

impl Magnet<LinkedSwap<CFMMPool>> {
    /// Spends the pool's output, re-posts the pool with the swapped reserves at the next
    /// output position, and references the script of the pool's version.
    pub fn try_exec<Ctx: HasScriptBudgets + HasPoolRefScripts>(
        self,
        state: &mut ExecutionState,
        ctx: &Ctx,
    ) -> (r: Result<ExecutionEff, ExecError>)
        requires
            self.0.fits(self.0.target),
        ensures
            ({
                let s = self.0;
                let src = s.source.0@;
                let produced = swap_produced(src, s.target, s.side, s.input, s.output);
                let input = InputView {
                    out_ref: s.source.1,
                    consumed: src,
                    script_hash: payment_script(src.address)->0,
                    redeemer: Redeemer::PoolSwap,
                    ex_units: ctx.pool_units_spec(),
                };
                match payment_script(src.address) {
                    None => r == Err::<ExecutionEff, ExecError>(ExecError::MissingScript) && final(state)@ == old(state)@,
                    Some(_) => {
                        &&& final(state)@.inputs == old(state)@.inputs.push(input)
                        &&& final(state)@.outputs == old(state)@.outputs.push(produced)
                        &&& final(state)@.reference_inputs == old(state)@.reference_inputs.push(
                            ctx.pool_ref_script_spec(s.target.ver),
                        )
                        &&& r is Ok
                        &&& r->Ok_0@ == EffView::Updated(AnyEntity::Pool(AnyPool::CFMM(s.transition)), produced)
                    },
                }
            }),
    {
        let Magnet(LinkedSwap { target: pool, source, transition, side, input, output }) = self;
        let FinalizedTxOut(consumed_out, in_ref) = source;
        let script_hash = match consumed_out.script_hash() {
            Some(h) => h,
            None => return Err(ExecError::MissingScript),
        };
        let (removed_asset, added_asset) = match side {
            SideM::Bid => (pool.asset_x, pool.asset_y),
            SideM::Ask => (pool.asset_y, pool.asset_x),
        };
        let mut produced_out = consumed_out.duplicate();
        produced_out.sub_asset(removed_asset, output);
        produced_out.add_asset(added_asset, input);
        let successor = produced_out.duplicate();
        let pool_in = ScriptInput {
            out_ref: in_ref,
            consumed: consumed_out,
            script_hash,
            redeemer: Redeemer::PoolSwap,
            ex_units: ctx.pool_units(),
        };
        state.add_output(produced_out);
        state.add_reference_input(ctx.pool_ref_script(pool.ver));
        state.add_input(pool_in);
        Ok(ExecutionEff::Updated(AnyEntity::Pool(AnyPool::CFMM(transition)), successor))
    }
}

impl Magnet<LinkedSwap<AnyPool>> {
    /// Routes a swap to the rule of its pool's kind.
    pub fn try_exec<Ctx: HasScriptBudgets + HasPoolRefScripts>(
        self,
        state: &mut ExecutionState,
        ctx: &Ctx,
    ) -> (r: Result<ExecutionEff, ExecError>)
        requires
            self.0.fits(spec_pool_of(self.0.target)),
        ensures
            ({
                let s = self.0;
                let p = spec_pool_of(s.target);
                let src = s.source.0@;
                let produced = swap_produced(src, p, s.side, s.input, s.output);
                let input = InputView {
                    out_ref: s.source.1,
                    consumed: src,
                    script_hash: payment_script(src.address)->0,
                    redeemer: Redeemer::PoolSwap,
                    ex_units: ctx.pool_units_spec(),
                };
                match payment_script(src.address) {
                    None => r == Err::<ExecutionEff, ExecError>(ExecError::MissingScript) && final(state)@ == old(state)@,
                    Some(_) => {
                        &&& final(state)@.inputs == old(state)@.inputs.push(input)
                        &&& final(state)@.outputs == old(state)@.outputs.push(produced)
                        &&& final(state)@.reference_inputs == old(state)@.reference_inputs.push(
                            ctx.pool_ref_script_spec(p.ver),
                        )
                        &&& r is Ok
                        &&& r->Ok_0@ == EffView::Updated(AnyEntity::Pool(s.transition), produced)
                    },
                }
            }),
    {
        let Magnet(LinkedSwap { target, source, transition, side, input, output }) = self;
        match (target, transition) {
            (AnyPool::CFMM(p), AnyPool::CFMM(p2)) => {
                Magnet(LinkedSwap { target: p, source, transition: p2, side, input, output }).try_exec(state, ctx)
            },
        }
    }
}

/// A fill conserves value: the order's input asset shrinks by exactly the removed amount,
/// its output asset grows by exactly the added amount, and every other asset is untouched.
pub proof fn lemma_fill_conserves(src: OutputView, o: SpotOrder, removed: u64, added: u64, b: AssetClass)
    requires
        fill_fits(src, o, removed, added),
    ensures
        fill_candidate(src, o, removed, added).wf(),
        fill_candidate(src, o, removed, added).balance_of(b) == src.balance_of(b) - (if b
            == o.input_asset {
            removed as int
        } else {
            0
        }) + (if b == o.output_asset {
            added as int
        } else {
            0
        }),
{
    let mid = src.with_sub(o.input_asset, removed);
    lemma_sub_asset_balance(src.assets, o.input_asset, removed, b);
    lemma_add_asset_balance(mid.assets, o.output_asset, added, b);
}

/// A swap is single-sided: the asset it takes out of the pool falls by exactly the amount
/// out, the asset it puts in rises by exactly the amount in, and nothing else changes.
pub proof fn lemma_swap_single_sided(
    src: OutputView,
    p: CFMMPool,
    side: SideM,
    input: u64,
    output: u64,
    b: AssetClass,
)
    requires
        swap_fits(src, p, side, input, output),
        p.asset_x != p.asset_y,
    ensures
        ({
            let (removed, added) = swap_assets(p, side);
            let produced = swap_produced(src, p, side, input, output);
            &&& produced.wf()
            &&& produced.balance_of(removed) == src.balance_of(removed) - output
            &&& produced.balance_of(added) == src.balance_of(added) + input
            &&& (b != p.asset_x && b != p.asset_y) ==> produced.balance_of(b) == src.balance_of(b)
            &&& (input > 0 && output > 0) ==> ((produced.balance_of(p.asset_x) < src.balance_of(
                p.asset_x) && produced.balance_of(p.asset_y) > src.balance_of(p.asset_y)) || (
            produced.balance_of(p.asset_y) < src.balance_of(p.asset_y) && produced.balance_of(
                p.asset_x) > src.balance_of(p.asset_x)))
        }),
{
    let (removed, added) = swap_assets(p, side);
    let mid = src.with_sub(removed, output);
    lemma_sub_asset_balance(src.assets, removed, output, b);
    lemma_add_asset_balance(mid.assets, added, input, b);
    lemma_sub_asset_balance(src.assets, removed, output, removed);
    lemma_add_asset_balance(mid.assets, added, input, removed);
    lemma_sub_asset_balance(src.assets, removed, output, added);
    lemma_add_asset_balance(mid.assets, added, input, added);
}

} // verus!
