//! Plain domain values tracked by the simulation engine.

use vstd::prelude::*;

verus! {

/// A state root: the digest that summarises a piece of ledger state.
#[derive(Clone, Copy, PartialEq, Eq, Structural, Debug)]
pub struct Root(pub u64);

/// The index of an execution environment within the simulation.
#[derive(Clone, Copy, PartialEq, Eq, Structural, Debug)]
pub struct EeIndex(pub usize);

/// The slot of a block within one shard's chain.
#[derive(Clone, Copy, PartialEq, Eq, Structural, Debug)]
pub struct ShardSlot(pub usize);

/// An indexed, independently-tracked component of the simulated ledger,
/// holding its own state root.
#[derive(Clone, Copy, PartialEq, Eq, Structural, Debug)]
pub struct ExecutionEnvironment {
    pub initial_state: Root,
}

/// A block on one shard's chain; its payload is kept as plain bytes.
#[derive(Debug)]
pub struct ShardBlock {
    pub data: Vec<u8>,
}

/// The state of one shard: its number and the slot past its latest block.
#[derive(Clone, Copy, PartialEq, Eq, Structural, Debug)]
pub struct ShardState {
    pub shard: u32,
    pub slot: ShardSlot,
}

/// The protocol constants the engine is parametrised over, injected as a
/// configuration value.
#[derive(Clone, Copy, PartialEq, Eq, Structural, Debug)]
pub struct EthSpec {
    pub shard_count: usize,
}

} // verus!
