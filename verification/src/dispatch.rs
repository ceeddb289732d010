//! The dispatch layer: the operation and reply model, the actor that owns the
//! engine and answers operations in acceptance order, and the caller-side
//! interpretation of a reply slot.
//!
//! The channels themselves live outside the library: the surrounding program
//! submits each accepted `Operation` to `Dispatch::step` (or a whole accepted
//! sequence to `Dispatch::run`) and delivers the returned `Reply` into that
//! operation's one-shot reply slot.

use vstd::prelude::*;

use crate::args::{
    CreateExecutionEnvironment, CreateShardBlock, GetExecutionEnvironment,
    GetExecutionEnvironmentState, GetShardBlock, GetShardState,
};
use crate::errors::Error as SimulationError;
use crate::eth2_types::{EeIndex, ExecutionEnvironment, Root, ShardBlock, ShardSlot, ShardState};
use crate::simulation::{no_shard_message, SimView, Simulation};

verus! {

/// Errors arising from a dispatched call.
#[derive(Debug)]
pub enum Error {
    /// Simulation error, forwarded verbatim across the actor boundary.
    Sim { source: SimulationError },
    /// Operation was cancelled because the simulation is shutting down.
    Terminated,
}

/// One request, tagged by operation; the surrounding program pairs it with
/// that operation's one-shot reply slot.
#[derive(Debug)]
pub enum Operation {
    CreateExecutionEnvironment(CreateExecutionEnvironment),
    CreateShardBlock(CreateShardBlock),
    GetExecutionEnvironment(GetExecutionEnvironment),
    GetExecutionEnvironmentState(GetExecutionEnvironmentState),
    GetShardBlock(GetShardBlock),
    GetShardState(GetShardState),
}

/// The outcome the actor sends back for one operation, tagged like the
/// operation it answers.
#[derive(Debug)]
pub enum Reply {
    CreateExecutionEnvironment(Result<EeIndex, Error>),
    CreateShardBlock(Result<ShardSlot, Error>),
    GetExecutionEnvironment(Result<ExecutionEnvironment, Error>),
    GetExecutionEnvironmentState(Result<Root, Error>),
    GetShardBlock(Result<ShardBlock, Error>),
    GetShardState(Result<ShardState, Error>),
}

/// An engine outcome carried across the actor boundary: success unchanged, a
/// failure wrapped to identify its layer of origin, losing nothing.
pub open spec fn wrapped<T>(r: Result<T, SimulationError>) -> Result<T, Error> {
    match r {
        Ok(v) => Ok(v),
        Err(e) => Err(Error::Sim { source: e }),
    }
}

/// Wraps an engine outcome for the caller; the engine's error value crosses
/// the boundary unmodified.
pub fn wrap_engine_result<T>(r: Result<T, SimulationError>) -> (w: Result<T, Error>)
    ensures
        w == wrapped(r),
{
    match r {
        Ok(v) => Ok(v),
        Err(e) => Err(Error::Sim { source: e }),
    }
}

/// The engine after answering `op`: creations change it, reads leave it as it
/// was, and no failure ever changes it.
pub open spec fn step_view(v: SimView, op: Operation) -> SimView {
    match op {
        Operation::CreateExecutionEnvironment(a) => v.create_ee(a),
        Operation::CreateShardBlock(a) => v.add_block(a.shard, a.data@),
        Operation::GetExecutionEnvironment(a) => v,
        Operation::GetExecutionEnvironmentState(a) => v,
        Operation::GetShardBlock(a) => v,
        Operation::GetShardState(a) => v,
    }
}

/// The engine after answering each operation of `ops`, front first.
pub open spec fn steps_view(v: SimView, ops: Seq<Operation>) -> SimView
    decreases ops.len(),
{
    if ops.len() == 0 {
        v
    } else {
        step_view(steps_view(v, ops.drop_last()), ops.last())
    }
}

/// What the actor replies to `op` when the engine's state is `v`: a reply
/// tagged like the operation, carrying the engine's outcome for it, failures
/// wrapped and otherwise untouched.
pub open spec fn reply_matches(v: SimView, op: Operation, r: Reply) -> bool {
    match op {
        Operation::CreateExecutionEnvironment(a) => r == Reply::CreateExecutionEnvironment(
            Ok::<EeIndex, Error>(v.next_ee_index()),
        ),
        Operation::CreateShardBlock(a) => if v.has_shard(a.shard) {
            r == Reply::CreateShardBlock(Ok::<ShardSlot, Error>(v.next_shard_slot(a.shard)))
        } else {
            r matches Reply::CreateShardBlock(res) && res matches Err(e) && e matches Error::Sim {
                source,
            } && source matches SimulationError::Uncategorized { message, backtrace }
                && message@ == no_shard_message()
        },
        Operation::GetExecutionEnvironment(a) => if v.has_ee(a.ee_index) {
            r == Reply::GetExecutionEnvironment(Ok::<ExecutionEnvironment, Error>(
                v.ees[a.ee_index.0 as int],
            ))
        } else {
            r == Reply::GetExecutionEnvironment(Err::<ExecutionEnvironment, Error>(Error::Sim {
                source: SimulationError::OutOfBounds {
                    what: crate::errors::WhatBound::ExecutionEnvironment,
                    index: a.ee_index.0,
                },
            }))
        },
        Operation::GetExecutionEnvironmentState(a) => if v.has_ee(a.ee_index) {
            r == Reply::GetExecutionEnvironmentState(Ok::<Root, Error>(
                v.ees[a.ee_index.0 as int].initial_state,
            ))
        } else {
            r == Reply::GetExecutionEnvironmentState(Err::<Root, Error>(Error::Sim {
                source: SimulationError::OutOfBounds {
                    what: crate::errors::WhatBound::ExecutionEnvironment,
                    index: a.ee_index.0,
                },
            }))
        },
        Operation::GetShardBlock(a) => if v.has_block(a.shard, a.slot) {
            r matches Reply::GetShardBlock(res) && res matches Ok(b) && b.data@
                == v.shards[a.shard as int][a.slot.0 as int]
        } else {
            r == Reply::GetShardBlock(Err::<ShardBlock, Error>(Error::Sim {
                source: SimulationError::OutOfBounds {
                    what: crate::errors::WhatBound::ShardBlock(a.shard),
                    index: a.slot.0,
                },
            }))
        },
        Operation::GetShardState(a) => if v.has_shard(a.shard) {
            r == Reply::GetShardState(Ok::<ShardState, Error>(v.state_of_shard(a.shard)))
        } else {
            r matches Reply::GetShardState(res) && res matches Err(e) && e matches Error::Sim {
                source,
            } && source matches SimulationError::Uncategorized { message, backtrace }
                && message@ == no_shard_message()
        },
    }
}

/// The dispatch actor's state: it owns the simulation engine exclusively, so
/// all engine mutation is sequential by construction.
#[derive(Debug)]
pub struct Dispatch {
    pub simulation: Simulation,
}

impl View for Dispatch {
    type V = SimView;

    open spec fn view(&self) -> SimView {
        self.simulation@
    }
}

impl Dispatch {
    /// An actor owning the given engine. The surrounding program pairs it
    /// with the receiving end of the command channel and hands the sending
    /// end to the first handle.
    pub fn new(simulation: Simulation) -> (d: Dispatch)
        ensures
            d@ == simulation@,
    {
        Dispatch { simulation }
    }

    /// Answers one accepted operation: invokes the matching engine operation
    /// and returns the reply owed to the operation's reply slot, the engine
    /// failure (if any) wrapped and otherwise untouched.
    pub fn step(&mut self, op: Operation) -> (r: Reply)
        requires
            old(self)@.wf(),
        ensures
            final(self)@ == step_view(old(self)@, op),
            final(self)@.wf(),
            reply_matches(old(self)@, op, r),
    {
        match op {
            Operation::CreateExecutionEnvironment(a) => Reply::CreateExecutionEnvironment(
                wrap_engine_result(self.simulation.create_execution_environment(a)),
            ),
            Operation::CreateShardBlock(a) => Reply::CreateShardBlock(
                wrap_engine_result(self.simulation.create_shard_block(a)),
            ),
            Operation::GetExecutionEnvironment(a) => Reply::GetExecutionEnvironment(
                wrap_engine_result(self.simulation.get_execution_environment(a)),
            ),
            Operation::GetExecutionEnvironmentState(a) => Reply::GetExecutionEnvironmentState(
                wrap_engine_result(self.simulation.get_execution_environment_state(a)),
            ),
            Operation::GetShardBlock(a) => Reply::GetShardBlock(
                wrap_engine_result(self.simulation.get_shard_block(a)),
            ),
            Operation::GetShardState(a) => Reply::GetShardState(
                wrap_engine_result(self.simulation.get_shard_state(a)),
            ),
        }
    }

    /// The actor's receive loop over a whole accepted sequence: operations
    /// are answered one at a time, first accepted first, each reply computed
    /// against the engine state that every earlier operation has already
    /// shaped. Processing order equals acceptance order.
    #[verifier::rlimit(50)]
    pub fn run(&mut self, ops: Vec<Operation>) -> (rs: Vec<Reply>)
        requires
            old(self)@.wf(),
        ensures
            final(self)@ == steps_view(old(self)@, ops@),
            final(self)@.wf(),
            rs@.len() == ops@.len(),
            forall|i: int| 0 <= i < ops@.len() ==> reply_matches(
                steps_view(old(self)@, ops@.take(i)),
                #[trigger] ops@[i],
                rs@[i],
            ),
    {
        let ghost ops0: Seq<Operation> = ops@;
        let mut remaining = ops;
        let mut rs: Vec<Reply> = Vec::new();
        let ghost mut done: int = 0;
        while remaining.len() > 0
            invariant
                self@.wf(),
                0 <= done <= ops0.len(),
                remaining@ =~= ops0.skip(done),
                rs@.len() == done,
                self@ == steps_view(old(self)@, ops0.take(done)),
                forall|i: int| 0 <= i < done ==> reply_matches(
                    steps_view(old(self)@, ops0.take(i)),
                    #[trigger] ops0[i],
                    rs@[i],
                ),
            decreases remaining@.len(),
        {
            let op = remaining.remove(0);
            proof {
                assert(op == ops0[done]);
                assert(ops0.take(done + 1).drop_last() =~= ops0.take(done));
                assert(ops0.take(done + 1).last() == ops0[done]);
            }
            let reply = self.step(op);
            rs.push(reply);
            proof {
                done = done + 1;
                assert(remaining@ =~= ops0.skip(done));
            }
        }
        proof {
            assert(ops0.take(ops0.len() as int) =~= ops0);
        }
        rs
    }
}

/// The actor's control state: waiting for the next operation, answering one,
/// or gone for good after the command channel closed.
#[derive(Clone, Copy, PartialEq, Eq, Structural, Debug)]
pub enum ActorState {
    Idle,
    Processing,
    Terminated,
}

/// What the actor's loop observes: an operation arriving, a reply landing in
/// its slot, a reply whose slot the caller already dropped, or the command
/// channel closing because no handle remains.
#[derive(Clone, Copy, PartialEq, Eq, Structural, Debug)]
pub enum ActorEvent {
    CommandReceived,
    ReplyDelivered,
    ReplyAbandoned,
    ChannelClosed,
}

/// The actor's transition relation: receipt starts processing, the reply send
/// ends it whether or not the caller still listens, closure while idle
/// terminates the loop, and termination is absorbing.
pub open spec fn actor_next(state: ActorState, event: ActorEvent) -> ActorState {
    match (state, event) {
        (ActorState::Idle, ActorEvent::CommandReceived) => ActorState::Processing,
        (ActorState::Idle, ActorEvent::ChannelClosed) => ActorState::Terminated,
        (ActorState::Processing, ActorEvent::ReplyDelivered) => ActorState::Idle,
        (ActorState::Processing, ActorEvent::ReplyAbandoned) => ActorState::Idle,
        (ActorState::Terminated, _) => ActorState::Terminated,
        (s, _) => s,
    }
}

/// Advances the actor's control state by one observed event.
pub fn actor_transition(state: ActorState, event: ActorEvent) -> (next: ActorState)
    ensures
        next == actor_next(state, event),
{
    match (state, event) {
        (ActorState::Idle, ActorEvent::CommandReceived) => ActorState::Processing,
        (ActorState::Idle, ActorEvent::ChannelClosed) => ActorState::Terminated,
        (ActorState::Processing, ActorEvent::ReplyDelivered) => ActorState::Idle,
        (ActorState::Processing, ActorEvent::ReplyAbandoned) => ActorState::Idle,
        (ActorState::Terminated, _) => ActorState::Terminated,
        (s, _) => s,
    }
}

/// When every handle is dropped while the actor has no pending operation,
/// the closure it then observes ends its loop in a single transition, and it
/// stays terminated whatever comes after.
pub proof fn lemma_closure_while_idle_terminates()
    ensures
        actor_next(ActorState::Idle, ActorEvent::ChannelClosed) == ActorState::Terminated,
        forall|e: ActorEvent| actor_next(ActorState::Terminated, e) == ActorState::Terminated,
{
}

/// A reply whose caller abandoned its slot before the actor answered is a
/// harmless no-op for the actor: the abandoned send leaves it in the same
/// idle state as a delivered one, so the loop neither fails nor stalls.
pub proof fn lemma_abandoned_reply_is_harmless()
    ensures
        actor_next(ActorState::Processing, ActorEvent::ReplyAbandoned) == ActorState::Idle,
        actor_next(ActorState::Processing, ActorEvent::ReplyAbandoned) == actor_next(
            ActorState::Processing,
            ActorEvent::ReplyDelivered,
        ),
{
}

/// Two operations accepted in the order `a` then `b` are observed by the
/// engine in that order: processing both leaves the engine exactly as `b`
/// applied after `a` does.
pub proof fn lemma_processing_follows_acceptance_order(v: SimView, a: Operation, b: Operation)
    ensures
        steps_view(v, seq![a, b]) == step_view(step_view(v, a), b),
{
    let s = seq![a, b];
    assert(s.last() == b);
    assert(s.drop_last() =~= seq![a]);
    assert(seq![a].last() == a);
    assert(seq![a].drop_last() =~= Seq::<Operation>::empty());
    assert(steps_view(v, seq![a].drop_last()) == v);
    assert(steps_view(v, seq![a]) == step_view(v, a));
    assert(steps_view(v, s) == step_view(steps_view(v, s.drop_last()), s.last()));
}

/// A wrapped engine error preserves the engine's error value unchanged
/// across the dispatch boundary: wrapping a failure yields exactly the
/// dispatch error whose source is that failure.
pub proof fn lemma_wrapped_engine_error_round_trip<T>(e: SimulationError)
    ensures
        wrapped::<T>(Err(e)) == Err::<T, Error>(Error::Sim { source: e }),
        wrapped::<T>(Err(e)) matches Err(w) && w matches Error::Sim { source } && source == e,
{
}

/// A caller's interpretation of what came out of its reply slot: the single
/// reply when the actor sent one, and the terminated error when the slot
/// closed because the actor stopped first. Exactly one outcome, never zero
/// and never two.
pub open spec fn call_outcome<T>(received: Option<Result<T, Error>>) -> Result<T, Error> {
    match received {
        Some(res) => res,
        None => Err(Error::Terminated),
    }
}

/// Resolves one handle call from what its reply slot yielded.
pub fn complete_call<T>(received: Option<Result<T, Error>>) -> (r: Result<T, Error>)
    ensures
        r == call_outcome(received),
        received is None ==> r == Err::<T, Error>(Error::Terminated),
        received matches Some(res) ==> r == res,
{
    match received {
        Some(res) => res,
        None => Err(Error::Terminated),
    }
}

/// Each handle call resolves to exactly one outcome — the actor's reply when
/// one was sent, the terminated error when the actor stopped without
/// replying — never zero and never more than one: any two resolutions of the
/// same reception agree.
pub proof fn lemma_call_resolves_exactly_once<T>(
    received: Option<Result<T, Error>>,
    r1: Result<T, Error>,
    r2: Result<T, Error>,
)
    requires
        call_ensures(complete_call::<T>, (received,), r1),
        call_ensures(complete_call::<T>, (received,), r2),
    ensures
        r1 == r2,
        r1 == call_outcome(received),
{
}

} // verus!
