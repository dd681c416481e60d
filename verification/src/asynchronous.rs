use vstd::prelude::*;

use crate::basic::BasicMediator;
use crate::builder::BuilderFlow;
use crate::interface::BasicMediatorBuilderInterface;
use crate::model::MediatorModel;

verus! {

/// The [`BasicAsyncBuilder`] assembles the mediator core that the
/// suspension-based variant wraps.
///
/// The suspension wrapper itself — a mutual-exclusion lock that turns
/// `publish`, `send` and `next` into suspension points — is cooperative
/// scheduling, supplied by the embedding program around the
/// [`BasicMediator`] this builder produces. The builder's behaviour is
/// the same as [`crate::basic::BasicBuilder`]'s: listeners accumulate in
/// registration order, and finalization cannot fail.
pub struct BasicAsyncBuilder<Ev, L> {
    mediator: BasicMediator<Ev, L>,
}

impl<Ev, L> View for BasicAsyncBuilder<Ev, L> {
    type V = MediatorModel<Ev, L>;

    closed spec fn view(&self) -> MediatorModel<Ev, L> {
        self.mediator@
    }
}

impl<Ev, L> BasicAsyncBuilder<Ev, L> {
    /// Creates an empty builder: no listener registered, no event
    /// pending.
    pub fn new() -> (r: Self)
        ensures
            r@.queue.len() == 0,
            r@.listeners.len() == 0,
    {
        BasicAsyncBuilder { mediator: BasicMediator::empty() }
    }

    /// Adds a user-defined listener, preserving registration order.
    pub fn add_listener(self, f: L) -> (r: Self)
        ensures
            r@.listeners == self@.listeners.push(f),
            r@.queue == self@.queue,
    {
        let mut m = self.mediator;
        m.register(f);
        BasicAsyncBuilder { mediator: m }
    }
}

impl<M, Ev, L> BasicMediatorBuilderInterface<M, Ev, L> for BasicAsyncBuilder<Ev, L> {
    open spec fn listeners(self) -> Seq<L> {
        self@.listeners
    }

    open spec fn pending(self) -> Seq<Ev> {
        self@.queue
    }

    fn add_listener(self, f: L) -> Self {
        self.add_listener(f)
    }
}

impl<Ev, L> BuilderFlow<BasicMediator<Ev, L>> for BasicAsyncBuilder<Ev, L> {
    open spec fn builds(self, m: BasicMediator<Ev, L>) -> bool {
        m@ == self@
    }

    /// Builds the mediator core: exactly the listeners registered so
    /// far, in order, and no pending event.
    fn build(self) -> BasicMediator<Ev, L> {
        self.mediator
    }
}

} // verus!
