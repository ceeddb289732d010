//! The simulation engine: execution environments and per-shard chains of
//! blocks, owned and mutated only through the dispatch actor.

use vstd::prelude::*;
use vstd::string::*;

use crate::args::{
    CreateExecutionEnvironment, CreateShardBlock, GetExecutionEnvironment,
    GetExecutionEnvironmentState, GetShardBlock, GetShardState,
};
use crate::errors::{capture_backtrace, Error, WhatBound};
use crate::eth2_types::{
    EeIndex, EthSpec, ExecutionEnvironment, Root, ShardBlock, ShardSlot, ShardState,
};

verus! {

/// The message carried by the error returned for a shard number the engine
/// does not track.
pub open spec fn no_shard_message() -> Seq<char> {
    "no shard exists at the given shard number"@
}

/// The mathematical model of the engine: the protocol's shard count, the
/// execution environments in creation order, and each shard's chain of block
/// payloads in slot order.
#[verifier::ext_equal]
pub struct SimView {
    pub shard_count: nat,
    pub ees: Seq<ExecutionEnvironment>,
    pub shards: Seq<Seq<Seq<u8>>>,
}

impl SimView {
    /// One chain per shard the protocol configures.
    pub open spec fn wf(self) -> bool {
        self.shards.len() == self.shard_count
    }

    /// Whether an execution environment exists at `idx`.
    pub open spec fn has_ee(self, idx: EeIndex) -> bool {
        (idx.0 as nat) < self.ees.len()
    }

    /// Whether the engine tracks a shard with this number.
    pub open spec fn has_shard(self, shard: u32) -> bool {
        (shard as nat) < self.shard_count
    }

    /// Whether shard `shard` holds a block at `slot`.
    pub open spec fn has_block(self, shard: u32, slot: ShardSlot) -> bool {
        self.has_shard(shard) && (slot.0 as nat) < self.shards[shard as int].len()
    }

    /// The index the next created execution environment receives.
    pub open spec fn next_ee_index(self) -> EeIndex {
        EeIndex(self.ees.len() as usize)
    }

    /// The slot the next block on shard `shard` receives.
    pub open spec fn next_shard_slot(self, shard: u32) -> ShardSlot {
        ShardSlot(self.shards[shard as int].len() as usize)
    }

    /// The engine after creating one execution environment.
    pub open spec fn create_ee(self, a: CreateExecutionEnvironment) -> SimView {
        SimView {
            shard_count: self.shard_count,
            ees: self.ees.push(ExecutionEnvironment { initial_state: a.initial_state }),
            shards: self.shards,
        }
    }

    /// The engine after appending a block with payload `data` to shard
    /// `shard`; unchanged when no such shard exists.
    pub open spec fn add_block(self, shard: u32, data: Seq<u8>) -> SimView {
        if self.has_shard(shard) {
            SimView {
                shard_count: self.shard_count,
                ees: self.ees,
                shards: self.shards.update(
                    shard as int,
                    self.shards[shard as int].push(data),
                ),
            }
        } else {
            self
        }
    }

    /// The state of shard `shard`: its number and the slot past its latest
    /// block.
    pub open spec fn state_of_shard(self, shard: u32) -> ShardState {
        ShardState { shard, slot: ShardSlot(self.shards[shard as int].len() as usize) }
    }
}

/// Three creation calls processed in order against a fresh engine are
/// assigned the indices 0, 1 and 2, and each created environment is then
/// visible to a read at its index.
pub proof fn lemma_three_creates_yield_indices_in_order(
    v: SimView,
    a0: CreateExecutionEnvironment,
    a1: CreateExecutionEnvironment,
    a2: CreateExecutionEnvironment,
)
    requires
        v.ees.len() == 0,
    ensures
        ({
            let v1 = v.create_ee(a0);
            let v2 = v1.create_ee(a1);
            let v3 = v2.create_ee(a2);
            v.next_ee_index() == EeIndex(0) && v1.next_ee_index() == EeIndex(1)
                && v2.next_ee_index() == EeIndex(2) && v3.has_ee(EeIndex(0))
                && v3.has_ee(EeIndex(1)) && v3.has_ee(EeIndex(2))
                && v3.ees[0] == (ExecutionEnvironment { initial_state: a0.initial_state })
                && v3.ees[1] == (ExecutionEnvironment { initial_state: a1.initial_state })
                && v3.ees[2] == (ExecutionEnvironment { initial_state: a2.initial_state })
        }),
{
}

/// The payload a stored block contributes to the engine's model.
pub open spec fn block_view(b: ShardBlock) -> Seq<u8> {
    b.data@
}

/// The payloads of one shard's chain, in slot order.
pub open spec fn chain_view(c: Vec<ShardBlock>) -> Seq<Seq<u8>> {
    c@.map_values(|b: ShardBlock| block_view(b))
}

/// The simulation engine. All its data is owned here; the dispatch actor is
/// its only caller, so every mutation is sequential by construction.
#[derive(Debug)]
pub struct Simulation {
    pub config: EthSpec,
    pub execution_environments: Vec<ExecutionEnvironment>,
    pub shards: Vec<Vec<ShardBlock>>,
}

impl View for Simulation {
    type V = SimView;

    open spec fn view(&self) -> SimView {
        SimView {
            shard_count: self.config.shard_count as nat,
            ees: self.execution_environments@,
            shards: self.shards@.map_values(|c: Vec<ShardBlock>| chain_view(c)),
        }
    }
}

impl Simulation {
    /// A fresh engine for the given protocol constants: no execution
    /// environments, and one empty chain per shard.
    pub fn new(config: EthSpec) -> (s: Simulation)
        ensures
            s@.wf(),
            s@.shard_count == config.shard_count as nat,
            s@.ees.len() == 0,
            forall|j: int| 0 <= j < s@.shards.len() ==> s@.shards[j].len() == 0,
    {
        let mut shards: Vec<Vec<ShardBlock>> = Vec::new();
        let mut i: usize = 0;
        while i < config.shard_count
            invariant
                i <= config.shard_count,
                shards@.len() == i as nat,
                forall|j: int| 0 <= j < i ==> shards@[j]@.len() == 0,
            decreases config.shard_count - i,
        {
            shards.push(Vec::new());
            i += 1;
        }
        let s = Simulation { config, execution_environments: Vec::new(), shards };
        proof {
            assert(forall|j: int|
                0 <= j < s@.shards.len() ==> s@.shards[j] == chain_view(s.shards@[j]));
        }
        s
    }

    /// Creates an execution environment; its index is the number created
    /// before it, so indices are assigned 0, 1, 2, ... in processing order.
    pub fn create_execution_environment(
        &mut self,
        a: CreateExecutionEnvironment,
    ) -> (r: Result<EeIndex, Error>)
        requires
            old(self)@.wf(),
        ensures
            final(self)@ == old(self)@.create_ee(a),
            final(self)@.wf(),
            r == Ok::<EeIndex, Error>(old(self)@.next_ee_index()),
    {
        let index = EeIndex(self.execution_environments.len());
        self.execution_environments.push(ExecutionEnvironment { initial_state: a.initial_state });
        proof {
            assert(self@ =~= old(self)@.create_ee(a));
        }
        Ok(index)
    }

    /// Reads the execution environment at the requested index; out of range,
    /// including any index on an engine that has created none, yields the
    /// out-of-bounds error naming the execution-environment kind and that
    /// index.
    pub fn get_execution_environment(
        &self,
        a: GetExecutionEnvironment,
    ) -> (r: Result<ExecutionEnvironment, Error>)
        ensures
            self@.has_ee(a.ee_index) ==> r == Ok::<ExecutionEnvironment, Error>(
                self@.ees[a.ee_index.0 as int],
            ),
            !self@.has_ee(a.ee_index) ==> r == Err::<ExecutionEnvironment, Error>(
                Error::OutOfBounds { what: WhatBound::ExecutionEnvironment, index: a.ee_index.0 },
            ),
    {
        if a.ee_index.0 < self.execution_environments.len() {
            Ok(self.execution_environments[a.ee_index.0])
        } else {
            Err(Error::OutOfBounds { what: WhatBound::ExecutionEnvironment, index: a.ee_index.0 })
        }
    }

    /// Reads the state root of the execution environment at the requested
    /// index; out of range yields the same out-of-bounds error as reading the
    /// environment itself.
    pub fn get_execution_environment_state(
        &self,
        a: GetExecutionEnvironmentState,
    ) -> (r: Result<Root, Error>)
        ensures
            self@.has_ee(a.ee_index) ==> r == Ok::<Root, Error>(
                self@.ees[a.ee_index.0 as int].initial_state,
            ),
            !self@.has_ee(a.ee_index) ==> r == Err::<Root, Error>(
                Error::OutOfBounds { what: WhatBound::ExecutionEnvironment, index: a.ee_index.0 },
            ),
    {
        if a.ee_index.0 < self.execution_environments.len() {
            Ok(self.execution_environments[a.ee_index.0].initial_state)
        } else {
            Err(Error::OutOfBounds { what: WhatBound::ExecutionEnvironment, index: a.ee_index.0 })
        }
    }

    /// Appends a block to the requested shard's chain and returns its slot;
    /// a shard number the protocol does not configure yields the
    /// uncategorized error.
    pub fn create_shard_block(&mut self, a: CreateShardBlock) -> (r: Result<ShardSlot, Error>)
        requires
            old(self)@.wf(),
        ensures
            final(self)@ == old(self)@.add_block(a.shard, a.data@),
            final(self)@.wf(),
            old(self)@.has_shard(a.shard) ==> r == Ok::<ShardSlot, Error>(
                old(self)@.next_shard_slot(a.shard),
            ),
            !old(self)@.has_shard(a.shard) ==> (r matches Err(e) && e matches
                Error::Uncategorized { message, backtrace } && message@ == no_shard_message()),
    {
        let shard_index = a.shard as usize;
        if shard_index < self.shards.len() {
            let mut chain = self.shards.remove(shard_index);
            let ghost chain0: Vec<ShardBlock> = chain;
            let slot = ShardSlot(chain.len());
            chain.push(ShardBlock { data: a.data });
            let ghost chain1: Vec<ShardBlock> = chain;
            self.shards.insert(shard_index, chain);
            proof {
                let i = a.shard as int;
                assert(chain0 == old(self).shards@[i]);
                assert(self.shards@ =~= old(self).shards@.update(i, chain1));
                assert(chain_view(chain1) =~= chain_view(chain0).push(a.data@));
                assert forall|j: int| 0 <= j < self@.shards.len() implies
                    self@.shards[j] == old(self)@.add_block(a.shard, a.data@).shards[j] by {
                    assert(self@.shards[j] == chain_view(self.shards@[j]));
                }
                assert(self@.shards =~= old(self)@.add_block(a.shard, a.data@).shards);
                assert(self@ =~= old(self)@.add_block(a.shard, a.data@));
            }
            Ok(slot)
        } else {
            proof {
                assert(self@ =~= old(self)@.add_block(a.shard, a.data@));
            }
            Err(Error::Uncategorized {
                message: String::from_str("no shard exists at the given shard number"),
                backtrace: capture_backtrace(),
            })
        }
    }

    /// Reads the block at the requested slot of the requested shard; a slot
    /// with no block, or a shard the protocol does not configure, yields the
    /// out-of-bounds error naming that shard and the requested slot.
    pub fn get_shard_block(&self, a: GetShardBlock) -> (r: Result<ShardBlock, Error>)
        requires
            self@.wf(),
        ensures
            self@.has_block(a.shard, a.slot) ==> (r matches Ok(b) && b.data@
                == self@.shards[a.shard as int][a.slot.0 as int]),
            !self@.has_block(a.shard, a.slot) ==> r == Err::<ShardBlock, Error>(
                Error::OutOfBounds { what: WhatBound::ShardBlock(a.shard), index: a.slot.0 },
            ),
    {
        let shard_index = a.shard as usize;
        if shard_index < self.shards.len() && a.slot.0 < self.shards[shard_index].len() {
            let data = self.shards[shard_index][a.slot.0].data.clone();
            proof {
                assert(self@.shards[a.shard as int] == chain_view(self.shards@[a.shard as int]));
                assert(data@ =~= self.shards@[a.shard as int]@[a.slot.0 as int].data@);
            }
            Ok(ShardBlock { data })
        } else {
            Err(Error::OutOfBounds { what: WhatBound::ShardBlock(a.shard), index: a.slot.0 })
        }
    }

    /// Reads the requested shard's state; a shard number the protocol does
    /// not configure yields the uncategorized error.
    pub fn get_shard_state(&self, a: GetShardState) -> (r: Result<ShardState, Error>)
        requires
            self@.wf(),
        ensures
            self@.has_shard(a.shard) ==> r == Ok::<ShardState, Error>(
                self@.state_of_shard(a.shard),
            ),
            !self@.has_shard(a.shard) ==> (r matches Err(e) && e matches
                Error::Uncategorized { message, backtrace } && message@ == no_shard_message()),
    {
        let shard_index = a.shard as usize;
        if shard_index < self.shards.len() {
            let slot = ShardSlot(self.shards[shard_index].len());
            proof {
                assert(self@.shards[a.shard as int] == chain_view(self.shards@[a.shard as int]));
            }
            Ok(ShardState { shard: a.shard, slot })
        } else {
            Err(Error::Uncategorized {
                message: String::from_str("no shard exists at the given shard number"),
                backtrace: capture_backtrace(),
            })
        }
    }
}

} // verus!
