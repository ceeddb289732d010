//! Caller-constructed argument values, one struct per engine operation.

use vstd::prelude::*;

use crate::eth2_types::{EeIndex, Root, ShardSlot};

verus! {

/// Arguments for creating an execution environment.
#[derive(Clone, Copy, PartialEq, Eq, Structural, Debug)]
pub struct CreateExecutionEnvironment {
    pub initial_state: Root,
}

/// Arguments for appending a block to one shard's chain.
#[derive(Debug)]
pub struct CreateShardBlock {
    pub shard: u32,
    pub data: Vec<u8>,
}

/// Arguments for reading an execution environment.
#[derive(Clone, Copy, PartialEq, Eq, Structural, Debug)]
pub struct GetExecutionEnvironment {
    pub ee_index: EeIndex,
}

/// Arguments for reading an execution environment's state root.
#[derive(Clone, Copy, PartialEq, Eq, Structural, Debug)]
pub struct GetExecutionEnvironmentState {
    pub ee_index: EeIndex,
}

/// Arguments for reading a block from one shard's chain.
#[derive(Clone, Copy, PartialEq, Eq, Structural, Debug)]
pub struct GetShardBlock {
    pub shard: u32,
    pub slot: ShardSlot,
}

/// Arguments for reading one shard's state.
#[derive(Clone, Copy, PartialEq, Eq, Structural, Debug)]
pub struct GetShardState {
    pub shard: u32,
}

} // verus!
