//! Strongly-typed mediators: a request-dispatch and event-publication hub.
//!
//! A mediator decouples the senders of a request from the single handler
//! that processes it, and the publishers of an event from the listeners
//! that react to it. Events travel through an ordered first-in-first-out
//! queue; a drain step removes the oldest event and hands a copy of it to
//! every registered listener in registration order.
//!
//! The [`basic::BasicMediator`] suffices for synchronous needs. A handler
//! that wants a shared context uses the dependency-aware
//! [`contextaware::CxAwareMediator`], whose builder requires the
//! dependency to be injected before it can finalize. The suspension-based
//! variants are these same cores behind mutual-exclusion locks supplied
//! by the embedding program; [`asynchronous::BasicAsyncBuilder`] builds
//! the core such a wrapper takes.
//!
//! Builders implement [`builder::BuilderInternal`] and
//! [`builder::BuilderFlow`] when every empty builder can already finalize
//! into a valid mediator, and [`builder::TryBuilderInternal`] and
//! [`builder::TryBuilderFlow`] when a mandatory ingredient may still be
//! absent, in which case finalizing yields a `Result`.
//!
//! Every operation's contract is stated over the mediator's mathematical
//! model, [`model::MediatorModel`]; the ordering and delivery laws of the
//! queue are proved in [`model`] once and for all.

pub mod asynchronous;
pub mod basic;
pub mod builder;
pub mod contextaware;
pub mod errors;
pub mod interface;
pub mod listener;
pub mod model;
