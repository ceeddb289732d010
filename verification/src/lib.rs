//! A command-dispatch core for a sharded-ledger simulation.
//!
//! Many concurrent callers are mediated into a single, sequentially-mutated
//! simulation engine. A `Handle`-side caller turns a typed request into a
//! `dispatch::Operation`, submits it over a channel, and awaits exactly one
//! reply; a single dispatch actor owns the engine, pulls operations off the
//! channel, and answers each one in acceptance order. The engine, the
//! operation and reply model, and every decision the actor takes are verified
//! here; the channels and the HTTP transport live outside the library.

pub mod args;
pub mod dispatch;
pub mod errors;
pub mod eth2_types;
pub mod simulation;
