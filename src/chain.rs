//! Events of chain following.
use vstd::prelude::*;

verus! {

/// A transaction applied to or removed from the ledger.
#[derive(Clone, Debug)]
pub enum LedgerTxEvent<Tx> {
    TxApplied { tx: Tx, slot: u64 },
    TxUnapplied(Tx),
}

/// A point on the chain: its origin, or a slot with the hash of the block there.
#[derive(Clone, Debug, PartialEq, Eq)]
pub enum Point {
    Origin,
    Specific(u64, Vec<u8>),
}

/// A step of chain following.
#[derive(Clone, Debug)]
pub enum ChainUpgrade<Block> {
    RollForward(Block),
    RollBackward(Point),
}

} // verus!
