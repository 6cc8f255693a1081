//! Recipe interpreter: applies a batch of linked instructions, then reconciles the
//! provisional outputs against the finished transaction.
use vstd::prelude::*;

use crate::context::{HasPoolRefScripts, HasScriptBudgets};
use crate::entity::{AnyEntity, AnyOrder, AnyPool, Baked};
use crate::executor::{
    fill_candidate, spec_order_of, spec_pool_of, spec_trans_of, swap_produced, EffView,
    ExecError, ExecutionEff, ExecutionState, InputView, LinkedFill, LinkedSwap, Magnet, Redeemer,
    StateTrans, StateView,
};
use crate::ledger::{payment_script, FinalizedTxOut, LedgerOutput, OutputRef, OutputView};

verus! {

/// One instruction of a batch.
#[derive(Clone, Debug, PartialEq, Eq)]
pub enum LinkedTerminalInstruction {
    Fill(LinkedFill<AnyOrder>),
    Swap(LinkedSwap<AnyPool>),
}

/// A batch of instructions; it is consumed from its tail.
#[derive(Clone, Debug, PartialEq, Eq)]
pub struct LinkedExecutionRecipe(pub Vec<LinkedTerminalInstruction>);

/// The instruction's amounts fit its source output.
pub open spec fn instruction_fits(i: LinkedTerminalInstruction) -> bool {
    match i {
        LinkedTerminalInstruction::Fill(f) => f.fits(spec_order_of(f.target)),
        LinkedTerminalInstruction::Swap(s) => s.fits(spec_pool_of(s.target)),
    }
}

/// The build state and effect after one instruction, or `None` when its source output is
/// not guarded by a script.
pub open spec fn step<Ctx: HasScriptBudgets + HasPoolRefScripts>(
    st: StateView,
    i: LinkedTerminalInstruction,
    ctx: Ctx,
) -> Option<(StateView, EffView)> {
    match i {
        LinkedTerminalInstruction::Fill(f) => {
            let o = spec_order_of(f.target);
            let src = f.source.0@;
            match payment_script(src.address) {
                None => None,
                Some(h) => {
                    let input = InputView {
                        out_ref: f.source.1,
                        consumed: src,
                        script_hash: h,
                        redeemer: Redeemer::SpotExec { successor_ix: st.outputs.len() as u16 },
                        ex_units: ctx.order_units_spec(),
                    };
                    let cand = fill_candidate(src, o, f.removed_input, f.added_output);
                    match spec_trans_of(f.transition) {
                        StateTrans::Active(o2) => Some(
                            (
                                StateView {
                                    inputs: st.inputs.push(input),
                                    outputs: st.outputs.push(cand),
                                    ..st
                                },
                                EffView::Updated(AnyEntity::Order(AnyOrder::Spot(o2)), cand),
                            ),
                        ),
                        StateTrans::EOL => Some(
                            (
                                StateView { inputs: st.inputs.push(input), ..st },
                                EffView::Eliminated(AnyOrder::Spot(o), src, f.source.1),
                            ),
                        ),
                    }
                },
            }
        },
        LinkedTerminalInstruction::Swap(s) => {
            let p = spec_pool_of(s.target);
            let src = s.source.0@;
            match payment_script(src.address) {
                None => None,
                Some(h) => {
                    let input = InputView {
                        out_ref: s.source.1,
                        consumed: src,
                        script_hash: h,
                        redeemer: Redeemer::PoolSwap,
                        ex_units: ctx.pool_units_spec(),
                    };
                    let produced = swap_produced(src, p, s.side, s.input, s.output);
                    Some(
                        (
                            StateView {
                                inputs: st.inputs.push(input),
                                outputs: st.outputs.push(produced),
                                reference_inputs: st.reference_inputs.push(
                                    ctx.pool_ref_script_spec(p.ver),
                                ),
                            },
                            EffView::Updated(AnyEntity::Pool(s.transition), produced),
                        ),
                    )
                },
            }
        },
    }
}

/// Applies the remaining instructions, last first, collecting their effects.
pub open spec fn run_spec<Ctx: HasScriptBudgets + HasPoolRefScripts>(
    st: StateView,
    effs: Seq<EffView>,
    rem: Seq<LinkedTerminalInstruction>,
    ctx: Ctx,
) -> Result<(StateView, Seq<EffView>), ExecError>
    decreases rem.len(),
{
    if rem.len() == 0 {
        Ok((st, effs))
    } else {
        match step(st, rem.last(), ctx) {
            None => Err(ExecError::MissingScript),
            Some((st2, e)) => run_spec(st2, effs.push(e), rem.drop_last(), ctx),
        }
    }
}

pub open spec fn effs_view(v: Seq<ExecutionEff>) -> Seq<EffView> {
    v.map_values(|e: ExecutionEff| e@)
}

pub open spec fn empty_state() -> StateView {
    StateView { inputs: seq![], outputs: seq![], reference_inputs: seq![] }
}

/// Every instruction fits its source, and the batch leaves room for 16-bit output positions.
pub open spec fn batch_fits(outputs: nat, rem: Seq<LinkedTerminalInstruction>) -> bool {
    &&& forall|k: int| 0 <= k < rem.len() ==> instruction_fits(#[trigger] rem[k])
    &&& outputs + rem.len() <= u16::MAX + 1
}

/// Applies `rem` from its tail to `state`, appending one effect per instruction.
pub fn execute<Ctx: HasScriptBudgets + HasPoolRefScripts>(
    ctx: Ctx,
    state: ExecutionState,
    updates_acc: Vec<ExecutionEff>,
    rem: Vec<LinkedTerminalInstruction>,
) -> (r: Result<(ExecutionState, Vec<ExecutionEff>, Ctx), ExecError>)
    requires
        batch_fits(state@.outputs.len(), rem@),
    ensures
        match run_spec(state@, effs_view(updates_acc@), rem@, ctx) {
            Ok((st, effs)) => r is Ok && (r->Ok_0).0@ == st && effs_view((r->Ok_0).1@) == effs
                && (r->Ok_0).2 == ctx,
            Err(e) => r == Err::<(ExecutionState, Vec<ExecutionEff>, Ctx), ExecError>(e),
        },
{
    let ghost goal = run_spec(state@, effs_view(updates_acc@), rem@, ctx);
    let mut st = state;
    let mut acc = updates_acc;
    let mut rest = rem;
    while rest.len() > 0
        invariant
            goal == run_spec(state@, effs_view(updates_acc@), rem@, ctx),
            run_spec(st@, effs_view(acc@), rest@, ctx) == goal,
            batch_fits(st@.outputs.len(), rest@),
        decreases rest@.len(),
    {
        let ghost rem0 = rest@;
        let ghost st0 = st@;
        let ghost acc0 = acc@;
        let instruction = rest.pop().unwrap();
        assert(rest@ == rem0.drop_last());
        assert(instruction == rem0.last());
        assert(instruction_fits(rem0[rem0.len() - 1]));
        let result = match instruction {
            LinkedTerminalInstruction::Fill(fill) => Magnet(fill).try_exec(&mut st, &ctx),
            LinkedTerminalInstruction::Swap(swap) => Magnet(swap).try_exec(&mut st, &ctx),
        };
        match result {
            Ok(eff) => {
                acc.push(eff);
                assert(effs_view(acc@) =~= effs_view(acc0).push(eff@));
                assert(st@.inputs =~= (step(st0, rem0.last(), ctx)->0).0.inputs);
                assert(st@.outputs =~= (step(st0, rem0.last(), ctx)->0).0.outputs);
                assert(st@.reference_inputs =~= (step(st0, rem0.last(), ctx)->0).0.reference_inputs);
                assert(forall|k: int|
                    0 <= k < rest@.len() ==> #[trigger] rest@[k] == rem0[k]);
            },
            Err(e) => {
                assert(step(st0, rem0.last(), ctx) is None);
                assert(goal == run_spec(st0, effs_view(acc0), rem0, ctx));
                assert(goal == Err::<(StateView, Seq<EffView>), ExecError>(e));
                return Err(e);
            },
        }
    }
    assert(rest@.len() == 0);
    Ok((st, acc, ctx))
}

/// The interpreter of instruction batches.
#[derive(Clone, Copy, Debug, PartialEq, Eq, Hash)]
pub struct CardanoRecipeInterpreter;

/// What an instruction did to its entity, once the transaction is final.
#[derive(Clone, Debug, PartialEq, Eq)]
pub enum FinalizedEff {
    /// The entity's new state and the output that holds it.
    Updated(Baked<AnyEntity>, FinalizedTxOut),
    /// The retired order and the output it was consumed from.
    Eliminated(Baked<AnyOrder>, FinalizedTxOut),
}

pub enum FinalEffView {
    Updated(Baked<AnyEntity>, OutputView, OutputRef),
    Eliminated(Baked<AnyOrder>, OutputView, OutputRef),
}

impl View for FinalizedEff {
    type V = FinalEffView;

    open spec fn view(&self) -> FinalEffView {
        match self {
            FinalizedEff::Updated(b, f) => FinalEffView::Updated(*b, f.0@, f.1),
            FinalizedEff::Eliminated(b, f) => FinalEffView::Eliminated(*b, f.0@, f.1),
        }
    }
}

/// A produced output that the finished transaction does not hold.
#[derive(Clone, Copy, Debug, PartialEq, Eq, Hash)]
pub enum ReconcileError {
    UnmatchedOutput,
}

/// `j` is the first position of `o` among `outs`.
pub open spec fn first_match(outs: Seq<OutputView>, o: OutputView, j: int) -> bool {
    &&& 0 <= j < outs.len()
    &&& outs[j] == o
    &&& forall|k: int| 0 <= k < j ==> outs[k] != o
}

/// The effect can be placed in the finished transaction.
pub open spec fn placeable(e: EffView, outs: Seq<OutputView>) -> bool {
    match e {
        EffView::Updated(_, o) => exists|j: int| 0 <= j < outs.len() && outs[j] == o,
        EffView::Eliminated(_, _, _) => true,
    }
}

/// `f` is `e` placed in the transaction with hash `h` and outputs `outs`: a produced output
/// gets the reference of its first structural match; a consumed one keeps its own.
pub open spec fn reconciled(e: EffView, outs: Seq<OutputView>, h: [u8; 32], f: FinalEffView) -> bool {
    match e {
        EffView::Updated(ent, o) => exists|j: int|
            first_match(outs, o, j) && f == FinalEffView::Updated(
                Baked { entity: ent, ver: OutputRef { tx_hash: h, index: j as u64 } },
                o,
                OutputRef { tx_hash: h, index: j as u64 },
            ),
        EffView::Eliminated(ord, c, r) => f == FinalEffView::Eliminated(
            Baked { entity: ord, ver: r },
            c,
            r,
        ),
    }
}

/// A placed effect points into the finished transaction: an updated entity's reference
/// carries the transaction's hash and the position of a structurally identical output; an
/// eliminated order keeps the reference of the output it was consumed from.
pub proof fn lemma_index_integrity(e: EffView, outs: Seq<OutputView>, h: [u8; 32], f: FinalEffView)
    requires
        reconciled(e, outs, h, f),
        outs.len() <= u64::MAX,
    ensures
        match f {
            FinalEffView::Updated(b, o, r) => {
                &&& r.tx_hash == h
                &&& b.ver == r
                &&& r.index < outs.len()
                &&& outs[r.index as int] == o
                &&& e == EffView::Updated(b.entity, o)
            },
            FinalEffView::Eliminated(b, c, r) => {
                &&& b.ver == r
                &&& e == EffView::Eliminated(b.entity, c, r)
            },
        },
{
}

pub open spec fn final_effs_view(v: Seq<FinalizedEff>) -> Seq<FinalEffView> {
    v.map_values(|e: FinalizedEff| e@)
}

fn position(outs: &Vec<LedgerOutput>, o: &LedgerOutput) -> (r: Option<usize>)
    ensures
        match r {
            Some(j) => first_match(outs@.map_values(|x: LedgerOutput| x@), o@, j as int),
            None => forall|k: int| 0 <= k < outs@.len() ==> outs@[k]@ != o@,
        },
{
    let ghost ov = outs@.map_values(|x: LedgerOutput| x@);
    let mut j: usize = 0;
    while j < outs.len()
        invariant
            j <= outs@.len(),
            ov == outs@.map_values(|x: LedgerOutput| x@),
            forall|k: int| 0 <= k < j ==> outs@[k]@ != o@,
        decreases outs@.len() - j,
    {
        if outs[j].same_as(o) {
            assert(forall|k: int| 0 <= k < j ==> ov[k] != o@);
            return Some(j);
        }
        j = j + 1;
    }
    None
}

/// Places every effect in the finished transaction with hash `tx_hash` and outputs
/// `tx_outputs`. Fails if a produced output has no structural match there.
pub fn reconcile(
    effects: &Vec<ExecutionEff>,
    tx_outputs: &Vec<LedgerOutput>,
    tx_hash: [u8; 32],
) -> (r: Result<Vec<FinalizedEff>, ReconcileError>)
    ensures
        ({
            let outs = tx_outputs@.map_values(|x: LedgerOutput| x@);
            let effs = effs_view(effects@);
            &&& r is Ok <==> forall|i: int| 0 <= i < effs.len() ==> placeable(#[trigger] effs[i], outs)
            &&& r is Ok ==> {
                let fin = final_effs_view(r->Ok_0@);
                &&& fin.len() == effs.len()
                &&& forall|i: int| 0 <= i < effs.len() ==> reconciled(#[trigger] effs[i], outs, tx_hash, fin[i])
            }
            &&& r is Err ==> r == Err::<Vec<FinalizedEff>, ReconcileError>(ReconcileError::UnmatchedOutput)
        }),
{
    let ghost outs = tx_outputs@.map_values(|x: LedgerOutput| x@);
    let ghost effs = effs_view(effects@);
    let mut finalized: Vec<FinalizedEff> = Vec::new();
    let mut i: usize = 0;
    while i < effects.len()
        invariant
            i <= effects@.len(),
            outs == tx_outputs@.map_values(|x: LedgerOutput| x@),
            effs == effs_view(effects@),
            final_effs_view(finalized@).len() == i,
            forall|k: int| 0 <= k < i ==> placeable(#[trigger] effs[k], outs),
            forall|k: int| 0 <= k < i ==> reconciled(#[trigger] effs[k], outs, tx_hash, final_effs_view(finalized@)[k]),
        decreases effects@.len() - i,
    {
        let ghost before = finalized@;
        let eff = match &effects[i] {
            ExecutionEff::Updated(ent, out) => {
                match position(tx_outputs, out) {
                    Some(j) => {
                        let out_ref = OutputRef::new(tx_hash, j as u64);
                        let f = FinalizedEff::Updated(
                            Baked::new(*ent, out_ref),
                            FinalizedTxOut(out.duplicate(), out_ref),
                        );
                        assert(reconciled(effs[i as int], outs, tx_hash, f@));
                        f
                    },
                    None => {
                        assert(!placeable(effs[i as int], outs));
                        return Err(ReconcileError::UnmatchedOutput);
                    },
                }
            },
            ExecutionEff::Eliminated(ord, consumed) => {
                let consumed_ref = consumed.1;
                FinalizedEff::Eliminated(Baked::new(*ord, consumed_ref), consumed.duplicate())
            },
        };
        finalized.push(eff);
        assert(final_effs_view(finalized@) =~= final_effs_view(before).push(eff@));
        i = i + 1;
    }
    Ok(finalized)
}


/// The BLAKE2b-256 digest of a byte string.
pub uninterp spec fn blake2b256_of(data: Seq<u8>) -> Seq<u8>;

/// Relies on cml_crypto::blake2b256: the 32-byte BLAKE2b digest of the bytes, which is a
/// transaction's identifier when the bytes are its encoded body.
#[verifier::external_body]
fn blake2b256(data: &Vec<u8>) -> (r: [u8; 32])
    ensures
        r@ == blake2b256_of(data@),
{
    cml_crypto::blake2b256(data.as_slice())
}

impl CardanoRecipeInterpreter {
    /// Applies the batch, last instruction first, to an empty build state.
    pub fn run<Ctx: HasScriptBudgets + HasPoolRefScripts>(
        &mut self,
        recipe: LinkedExecutionRecipe,
        ctx: Ctx,
    ) -> (r: Result<(ExecutionState, Vec<ExecutionEff>, Ctx), ExecError>)
        requires
            batch_fits(0, recipe.0@),
        ensures
            *final(self) == *old(self),
            match run_spec(empty_state(), seq![], recipe.0@, ctx) {
                Ok((st, effs)) => r is Ok && (r->Ok_0).0@ == st && effs_view((r->Ok_0).1@) == effs
                    && (r->Ok_0).2 == ctx,
                Err(e) => r == Err::<(ExecutionState, Vec<ExecutionEff>, Ctx), ExecError>(e),
            },
    {
        let LinkedExecutionRecipe(instructions) = recipe;
        let state = ExecutionState::new();
        let acc: Vec<ExecutionEff> = Vec::new();
        assert(state@ == empty_state()) by {
            assert(state@.inputs =~= seq![]);
            assert(state@.outputs =~= seq![]);
            assert(state@.reference_inputs =~= seq![]);
        }
        assert(effs_view(acc@) =~= seq![]);
        execute(ctx, state, acc, instructions)
    }

    /// Places the batch's effects in the finished transaction, given its encoded body and
    /// its outputs: the transaction's hash is computed from the body, and each produced
    /// output gets the reference of its first structural match among the outputs.
    pub fn finalize(
        &self,
        effects: &Vec<ExecutionEff>,
        body_cbor: &Vec<u8>,
        tx_outputs: &Vec<LedgerOutput>,
    ) -> (r: Result<([u8; 32], Vec<FinalizedEff>), ReconcileError>)
        ensures
            ({
                let outs = tx_outputs@.map_values(|x: LedgerOutput| x@);
                let effs = effs_view(effects@);
                &&& r is Ok <==> forall|i: int| 0 <= i < effs.len() ==> placeable(#[trigger] effs[i], outs)
                &&& r is Ok ==> {
                    let h = (r->Ok_0).0;
                    let fin = final_effs_view((r->Ok_0).1@);
                    &&& h@ == blake2b256_of(body_cbor@)
                    &&& fin.len() == effs.len()
                    &&& forall|i: int| 0 <= i < effs.len() ==> reconciled(#[trigger] effs[i], outs, h, fin[i])
                }
                &&& r is Err ==> r == Err::<([u8; 32], Vec<FinalizedEff>), ReconcileError>(ReconcileError::UnmatchedOutput)
            }),
    {
        let tx_hash = blake2b256(body_cbor);
        match reconcile(effects, tx_outputs, tx_hash) {
            Ok(fin) => Ok((tx_hash, fin)),
            Err(e) => Err(e),
        }
    }
}

} // verus!
