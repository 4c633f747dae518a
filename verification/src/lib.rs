//! A declarative-to-imperative actor translator.
//!
//! Given an actor declaration — a bundle of exactly one owned state type
//! plus a set of capability implementations on it — this library validates
//! the declaration, builds a consistent cross-referencing model, and
//! synthesizes the full declaration set of a concurrent actor: per-capability
//! message schemas, the client-facing proxy, and the construction function
//! whose background dispatch loop owns the state and executes handlers
//! sequentially.  The surrounding front end parses raw source into the
//! [`ast::Item`] model and renders the synthesized models back out; the
//! semantic pipeline in between is verified.

use vstd::prelude::*;

pub mod actor_decl;
pub mod ast;
pub mod diag;
pub mod infotype;
pub mod names;
pub mod namerewriter;
pub mod performance;
pub mod role;
pub mod spawning_function;

verus! {

/// Relies on tokio's `task::JoinHandle`, the handle of a spawned
/// background task; declared opaque and only carried through.
#[verifier::external_type_specification]
#[verifier::external_body]
#[verifier::reject_recursive_types(T)]
pub struct ExJoinHandle<T>(tokio::task::JoinHandle<T>);

/// Relies on tokio's `task::JoinError`, which a join handle resolves to
/// when its task fails; declared opaque, never inspected here.
#[verifier::external_type_specification]
#[verifier::external_body]
pub struct ExJoinError(tokio::task::JoinError);

/// What a `start`-style construction function returns: the shared handle
/// through which every capability of the actor is callable, and the handle
/// to await the background dispatch loop's completion.  The background
/// task owns the state value and every receive endpoint for its entire
/// life; it ends when all channels close or the loop otherwise exits.
#[non_exhaustive]
pub struct ActorSpawn<T> {
    pub actor: std::sync::Arc<T>,
    pub join_handle: tokio::task::JoinHandle<Result<(), ()>>,
}

impl<T> ActorSpawn<T> {
    /// Bundles the shared proxy handle with the background join handle.
    pub fn new(actor: std::sync::Arc<T>, join_handle: tokio::task::JoinHandle<Result<(), ()>>) -> (r:
        ActorSpawn<T>)
        ensures
            r.actor == actor,
            r.join_handle == join_handle,
    {
        ActorSpawn { actor, join_handle }
    }
}

/// The channel flavour the generated code associates with every
/// capability: an unbounded queue of the capability's message type, so a
/// send resolves immediately and never blocks the caller.
pub struct TokioUnbounded<T>(std::marker::PhantomData<T>);

/// An opaque parameter type for exercising generated handler signatures.
pub struct AType;

/// An opaque parameter type for exercising generated handler signatures.
pub struct Pattern;

/// An opaque return type for exercising generated handler signatures.
pub struct Return;

} // verus!
