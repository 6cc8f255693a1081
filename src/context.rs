//! The capabilities that execution draws from its environment, one accessor each.
use vstd::prelude::*;

use crate::entity::PoolVer;
use crate::ledger::{Address, ExUnits, OutputRef, OutputView, UnspentOutput};

verus! {

/// Soft and hard execution-unit limits of a batch.
#[derive(Clone, Copy, Debug, PartialEq, Eq, Hash)]
pub struct ExecutionCap {
    pub soft: ExUnits,
    pub hard: ExUnits,
}

/// Outputs that carry the deployed reference scripts.
#[derive(Clone, Debug, PartialEq, Eq)]
pub struct ReferenceOutputs {
    pub pool_v1: UnspentOutput,
    pub pool_v2: UnspentOutput,
    pub limit_order: UnspentOutput,
}

/// Everything a batch needs from its environment.
#[derive(Clone, Debug, PartialEq, Eq)]
pub struct ExecutionContext {
    pub time: u64,
    pub execution_caps: ExecutionCap,
    pub refs: ReferenceOutputs,
    pub collateral: UnspentOutput,
    pub reward_addr: Address,
    pub network_id: u8,
    /// Budget granted to one order script run.
    pub order_ex_units: ExUnits,
    /// Budget granted to one pool script run.
    pub pool_ex_units: ExUnits,
}

/// Gives the reference-script output that validates pools of a protocol version.
pub trait HasPoolRefScripts {
    spec fn pool_ref_script_spec(&self, ver: PoolVer) -> (OutputRef, OutputView);

    fn pool_ref_script(&self, ver: PoolVer) -> (r: UnspentOutput)
        ensures
            r.view_pair() == self.pool_ref_script_spec(ver),
    ;
}

/// Gives the execution units granted to each kind of script run.
pub trait HasScriptBudgets {
    spec fn order_units_spec(&self) -> ExUnits;

    spec fn pool_units_spec(&self) -> ExUnits;

    fn order_units(&self) -> (r: ExUnits)
        ensures
            r == self.order_units_spec(),
    ;

    fn pool_units(&self) -> (r: ExUnits)
        ensures
            r == self.pool_units_spec(),
    ;
}

impl HasPoolRefScripts for ExecutionContext {
    /// The first version has a script of its own; every later one shares the second.
    open spec fn pool_ref_script_spec(&self, ver: PoolVer) -> (OutputRef, OutputView) {
        match ver {
            PoolVer::V1 => self.refs.pool_v1.view_pair(),
            _ => self.refs.pool_v2.view_pair(),
        }
    }

    fn pool_ref_script(&self, ver: PoolVer) -> (r: UnspentOutput) {
        match ver {
            PoolVer::V1 => self.refs.pool_v1.duplicate(),
            _ => self.refs.pool_v2.duplicate(),
        }
    }
}

impl HasScriptBudgets for ExecutionContext {
    open spec fn order_units_spec(&self) -> ExUnits {
        self.order_ex_units
    }

    open spec fn pool_units_spec(&self) -> ExUnits {
        self.pool_ex_units
    }

    fn order_units(&self) -> (r: ExUnits) {
        self.order_ex_units
    }

    fn pool_units(&self) -> (r: ExUnits) {
        self.pool_ex_units
    }
}

impl ExecutionContext {
    pub fn get_time(&self) -> (r: u64)
        ensures
            r == self.time,
    {
        self.time
    }

    pub fn get_execution_caps(&self) -> (r: ExecutionCap)
        ensures
            r == self.execution_caps,
    {
        self.execution_caps
    }

    pub fn get_collateral(&self) -> (r: UnspentOutput)
        ensures
            r.view_pair() == self.collateral.view_pair(),
    {
        self.collateral.duplicate()
    }

    pub fn get_reward_addr(&self) -> (r: Address)
        ensures
            r == self.reward_addr,
    {
        self.reward_addr
    }

    pub fn get_network_id(&self) -> (r: u8)
        ensures
            r == self.network_id,
    {
        self.network_id
    }
}

} // verus!
