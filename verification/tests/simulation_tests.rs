use notion_server::args::{
    CreateExecutionEnvironment, CreateShardBlock, GetExecutionEnvironment,
    GetExecutionEnvironmentState, GetShardBlock, GetShardState,
};
use notion_server::dispatch;
use notion_server::errors::{u64_decimal, Error, WhatBound};
use notion_server::eth2_types::{EeIndex, EthSpec, Root, ShardSlot};
use notion_server::simulation::Simulation;

fn fresh(shard_count: usize) -> Simulation {
    Simulation::new(EthSpec { shard_count })
}

#[test]
fn create_execution_environment_assigns_index_zero() {
    let mut sim = fresh(2);
    let r = sim.create_execution_environment(CreateExecutionEnvironment {
        initial_state: Root(7),
    });
    assert_eq!(r.unwrap(), EeIndex(0));
}

#[test]
fn three_creates_yield_indices_in_order() {
    let mut sim = fresh(2);
    let roots = [Root(10), Root(20), Root(30)];
    for (i, root) in roots.iter().enumerate() {
        let r = sim.create_execution_environment(CreateExecutionEnvironment {
            initial_state: *root,
        });
        assert_eq!(r.unwrap(), EeIndex(i));
    }
    for (i, root) in roots.iter().enumerate() {
        let ee = sim
            .get_execution_environment(GetExecutionEnvironment { ee_index: EeIndex(i) })
            .unwrap();
        assert_eq!(ee.initial_state, *root);
    }
}

#[test]
fn get_execution_environment_out_of_bounds() {
    let mut sim = fresh(2);
    // Index 0 on an engine that has created none is already out of bounds.
    let r = sim.get_execution_environment(GetExecutionEnvironment { ee_index: EeIndex(0) });
    match r {
        Err(Error::OutOfBounds { what, index }) => {
            assert_eq!(what, WhatBound::ExecutionEnvironment);
            assert_eq!(index, 0);
        }
        other => panic!("expected out of bounds, got {:?}", other),
    }
    sim.create_execution_environment(CreateExecutionEnvironment { initial_state: Root(1) })
        .unwrap();
    sim.create_execution_environment(CreateExecutionEnvironment { initial_state: Root(2) })
        .unwrap();
    let r = sim.get_execution_environment(GetExecutionEnvironment { ee_index: EeIndex(2) });
    match r {
        Err(Error::OutOfBounds { what, index }) => {
            assert_eq!(what, WhatBound::ExecutionEnvironment);
            assert_eq!(index, 2);
        }
        other => panic!("expected out of bounds, got {:?}", other),
    }
}

#[test]
fn get_execution_environment_state_returns_root() {
    let mut sim = fresh(1);
    sim.create_execution_environment(CreateExecutionEnvironment { initial_state: Root(99) })
        .unwrap();
    let root = sim
        .get_execution_environment_state(GetExecutionEnvironmentState { ee_index: EeIndex(0) })
        .unwrap();
    assert_eq!(root, Root(99));
    let r = sim.get_execution_environment_state(GetExecutionEnvironmentState {
        ee_index: EeIndex(1),
    });
    match r {
        Err(Error::OutOfBounds { what, index }) => {
            assert_eq!(what, WhatBound::ExecutionEnvironment);
            assert_eq!(index, 1);
        }
        other => panic!("expected out of bounds, got {:?}", other),
    }
}

#[test]
fn create_and_get_shard_block() {
    let mut sim = fresh(2);
    let slot = sim
        .create_shard_block(CreateShardBlock { shard: 1, data: vec![1, 2, 3] })
        .unwrap();
    assert_eq!(slot, ShardSlot(0));
    let block = sim
        .get_shard_block(GetShardBlock { shard: 1, slot: ShardSlot(0) })
        .unwrap();
    assert_eq!(block.data, vec![1, 2, 3]);
    let state = sim.get_shard_state(GetShardState { shard: 1 }).unwrap();
    assert_eq!(state.shard, 1);
    assert_eq!(state.slot, ShardSlot(1));
    // The other shard is untouched.
    let state = sim.get_shard_state(GetShardState { shard: 0 }).unwrap();
    assert_eq!(state.slot, ShardSlot(0));
}

#[test]
fn get_shard_block_out_of_bounds() {
    let mut sim = fresh(2);
    let r = sim.get_shard_block(GetShardBlock { shard: 0, slot: ShardSlot(0) });
    match r {
        Err(Error::OutOfBounds { what, index }) => {
            assert_eq!(what, WhatBound::ShardBlock(0));
            assert_eq!(index, 0);
        }
        other => panic!("expected out of bounds, got {:?}", other),
    }
    // A shard number the protocol does not configure is out of bounds too.
    let r = sim.get_shard_block(GetShardBlock { shard: 9, slot: ShardSlot(3) });
    match r {
        Err(Error::OutOfBounds { what, index }) => {
            assert_eq!(what, WhatBound::ShardBlock(9));
            assert_eq!(index, 3);
        }
        other => panic!("expected out of bounds, got {:?}", other),
    }
}

#[test]
fn create_shard_block_on_missing_shard_is_uncategorized() {
    let mut sim = fresh(2);
    let r = sim.create_shard_block(CreateShardBlock { shard: 5, data: vec![9] });
    match r {
        Err(Error::Uncategorized { message, .. }) => {
            assert_eq!(message.as_str(), "no shard exists at the given shard number");
        }
        other => panic!("expected uncategorized, got {:?}", other),
    }
    let r = sim.get_shard_state(GetShardState { shard: 2 });
    assert!(matches!(r, Err(Error::Uncategorized { .. })));
}

#[test]
fn decimal_rendering_is_exact() {
    assert_eq!(u64_decimal(0).as_str(), "0");
    assert_eq!(u64_decimal(7).as_str(), "7");
    assert_eq!(u64_decimal(10).as_str(), "10");
    assert_eq!(u64_decimal(907).as_str(), "907");
    assert_eq!(u64_decimal(u64::MAX).as_str(), "18446744073709551615");
}

#[test]
fn what_bound_description_is_exact() {
    assert_eq!(
        WhatBound::ExecutionEnvironment.description().as_str(),
        "execution environment"
    );
    assert_eq!(WhatBound::ShardBlock(17).description().as_str(), "block on shard 17");
}

#[test]
fn error_description_is_exact() {
    let e = Error::OutOfBounds { what: WhatBound::ExecutionEnvironment, index: 4 };
    assert_eq!(e.description().as_str(), "no execution environment exists at index: 4");
    let e = Error::OutOfBounds { what: WhatBound::ShardBlock(3), index: 12 };
    assert_eq!(e.description().as_str(), "no block on shard 3 exists at index: 12");
    let e = Error::Uncategorized { message: String::from("boom"), backtrace: String::new() };
    assert_eq!(e.description().as_str(), "uncategorized error: boom");
}

#[test]
fn complete_call_resolves_closure_to_terminated() {
    let r = dispatch::complete_call::<EeIndex>(None);
    assert!(matches!(r, Err(dispatch::Error::Terminated)));
    let r = dispatch::complete_call::<EeIndex>(Some(Ok(EeIndex(3))));
    assert_eq!(r.unwrap(), EeIndex(3));
    let r = dispatch::complete_call::<EeIndex>(Some(Err(dispatch::Error::Sim {
        source: Error::OutOfBounds { what: WhatBound::ExecutionEnvironment, index: 1 },
    })));
    match r {
        Err(dispatch::Error::Sim { source: Error::OutOfBounds { what, index } }) => {
            assert_eq!(what, WhatBound::ExecutionEnvironment);
            assert_eq!(index, 1);
        }
        other => panic!("expected wrapped engine error, got {:?}", other),
    }
}
