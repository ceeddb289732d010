use notion_server::args::{CreateExecutionEnvironment, GetExecutionEnvironment, GetShardState};
use notion_server::dispatch::{
    actor_transition, ActorEvent, ActorState, Dispatch, Error, Operation, Reply,
};
use notion_server::errors::Error as SimulationError;
use notion_server::errors::WhatBound;
use notion_server::eth2_types::{EeIndex, EthSpec, Root};
use notion_server::simulation::Simulation;

fn fresh_dispatch(shard_count: usize) -> Dispatch {
    Dispatch::new(Simulation::new(EthSpec { shard_count }))
}

#[test]
fn step_answers_with_matching_reply_variant() {
    let mut dispatch = fresh_dispatch(1);
    let reply = dispatch.step(Operation::CreateExecutionEnvironment(
        CreateExecutionEnvironment { initial_state: Root(5) },
    ));
    match reply {
        Reply::CreateExecutionEnvironment(res) => assert_eq!(res.unwrap(), EeIndex(0)),
        other => panic!("reply variant does not match the operation: {:?}", other),
    }
    let reply = dispatch.step(Operation::GetShardState(GetShardState { shard: 0 }));
    assert!(matches!(reply, Reply::GetShardState(Ok(_))));
}

#[test]
fn step_wraps_engine_error_without_loss() {
    let mut dispatch = fresh_dispatch(1);
    let reply = dispatch.step(Operation::GetExecutionEnvironment(GetExecutionEnvironment {
        ee_index: EeIndex(4),
    }));
    // The engine's distinguishing fields cross the boundary unchanged.
    match reply {
        Reply::GetExecutionEnvironment(Err(Error::Sim {
            source: SimulationError::OutOfBounds { what, index },
        })) => {
            assert_eq!(what, WhatBound::ExecutionEnvironment);
            assert_eq!(index, 4);
        }
        other => panic!("expected a wrapped out-of-bounds error, got {:?}", other),
    }
}

#[test]
fn run_processes_in_acceptance_order() {
    let mut dispatch = fresh_dispatch(1);
    let ops = vec![
        Operation::CreateExecutionEnvironment(CreateExecutionEnvironment {
            initial_state: Root(1),
        }),
        Operation::CreateExecutionEnvironment(CreateExecutionEnvironment {
            initial_state: Root(2),
        }),
        // Succeeds only because both creations were processed before it.
        Operation::GetExecutionEnvironment(GetExecutionEnvironment { ee_index: EeIndex(1) }),
    ];
    let replies = dispatch.run(ops);
    assert_eq!(replies.len(), 3);
    match &replies[0] {
        Reply::CreateExecutionEnvironment(Ok(idx)) => assert_eq!(*idx, EeIndex(0)),
        other => panic!("unexpected reply: {:?}", other),
    }
    match &replies[1] {
        Reply::CreateExecutionEnvironment(Ok(idx)) => assert_eq!(*idx, EeIndex(1)),
        other => panic!("unexpected reply: {:?}", other),
    }
    match &replies[2] {
        Reply::GetExecutionEnvironment(Ok(ee)) => assert_eq!(ee.initial_state, Root(2)),
        other => panic!("unexpected reply: {:?}", other),
    }
}

#[test]
fn run_with_no_pending_commands_completes_with_no_replies() {
    let mut dispatch = fresh_dispatch(1);
    let replies = dispatch.run(Vec::new());
    assert!(replies.is_empty());
}

#[test]
fn actor_state_machine_follows_protocol() {
    // Receipt starts processing; the reply send returns the actor to idle
    // whether or not the caller still listens.
    let s = actor_transition(ActorState::Idle, ActorEvent::CommandReceived);
    assert_eq!(s, ActorState::Processing);
    assert_eq!(actor_transition(s, ActorEvent::ReplyDelivered), ActorState::Idle);
    assert_eq!(actor_transition(s, ActorEvent::ReplyAbandoned), ActorState::Idle);
    // Closure while idle terminates in one step, and termination is absorbing.
    let t = actor_transition(ActorState::Idle, ActorEvent::ChannelClosed);
    assert_eq!(t, ActorState::Terminated);
    assert_eq!(actor_transition(t, ActorEvent::CommandReceived), ActorState::Terminated);
}
