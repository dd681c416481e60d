use vstd::prelude::*;

use crate::basic::BasicMediator;
use crate::builder::{TryBuilderFlow, TryBuilderInternal};
use crate::errors::{NoCxAvailable, TryRecvError};
use crate::interface::{
    BasicMediatorBuilderInterface, CxAwareMediatorBuilderInterface, CxAwareRequestHandler,
    SyncMediatorInternal, SyncMediatorInternalNext,
};
use crate::listener::Listener;
use crate::model::{drain_model, publish_model, MediatorModel};

verus! {

/// Mathematical model of a dependency-aware mediator: the basic
/// mediator's model plus the shared dependency value.
pub struct CxAwareModel<Dep, Ev, L> {
    /// The pending events and the listeners of the underlying mediator.
    pub core: MediatorModel<Ev, L>,
    /// The dependency supplied at build time.
    pub dep: Dep,
}

/// Mathematical model of the dependency-aware builder: the accumulated
/// mediator core, and the dependency if one has been supplied yet.
pub struct CxAwareBuilderModel<Dep, Ev, L> {
    /// The accumulated mediator core.
    pub core: MediatorModel<Ev, L>,
    /// The dependency supplied so far, if any.
    pub dep: Option<Dep>,
}

/// Supplying a dependency overwrites any earlier one and leaves the
/// accumulated core untouched.
pub open spec fn cx_add_dependency_model<Dep, Ev, L>(
    b: CxAwareBuilderModel<Dep, Ev, L>,
    dep: Dep,
) -> CxAwareBuilderModel<Dep, Ev, L> {
    CxAwareBuilderModel { core: b.core, dep: Some(dep) }
}

/// A dependency-aware mediator may be built exactly when a dependency
/// has been supplied.
pub open spec fn cx_build_permitted<Dep, Ev, L>(b: CxAwareBuilderModel<Dep, Ev, L>) -> bool {
    b.dep is Some
}

/// Dependency gating: a builder that was never given a dependency cannot
/// finalize, and one call of `add_dependency` makes finalization
/// permitted, with exactly the supplied value available to handlers.
pub proof fn lemma_dependency_gating<Dep, Ev, L>(b: CxAwareBuilderModel<Dep, Ev, L>, dep: Dep)
    ensures
        b.dep is None ==> !cx_build_permitted(b),
        cx_build_permitted(cx_add_dependency_model(b, dep)),
        cx_add_dependency_model(b, dep).dep == Some(dep),
        cx_add_dependency_model(b, dep).core == b.core,
{
}

/// Dependency-aware mediator with events of type `Ev`, listeners of
/// type `L`, and a dependency of type `Dep` supplied once at build time.
///
/// It behaves as a [`BasicMediator`] whose `send` additionally hands the
/// handler read access to the dependency: requests are processed by the
/// user-defined [`CxAwareRequestHandler`] implementation, which observes
/// the exact value supplied to the builder. The dependency itself never
/// changes after construction.
///
/// The suspension-based variant of this mediator places the core and the
/// dependency behind independent mutual-exclusion locks; that wrapper is
/// cooperative scheduling, supplied by the embedding program around this
/// verified core.
pub struct CxAwareMediator<Dep, Ev, L> {
    basic: BasicMediator<Ev, L>,
    dep: Dep,
}

impl<Dep, Ev, L> View for CxAwareMediator<Dep, Ev, L> {
    type V = CxAwareModel<Dep, Ev, L>;

    closed spec fn view(&self) -> CxAwareModel<Dep, Ev, L> {
        CxAwareModel { core: self.basic@, dep: self.dep }
    }
}

impl<Dep, Ev, L> CxAwareMediator<Dep, Ev, L> {
    /// Publishes an event on the underlying mediator; the dependency is
    /// not involved.
    pub fn publish(&mut self, event: Ev)
        ensures
            final(self)@.core == publish_model(old(self)@.core, event),
            final(self)@.dep == old(self)@.dep,
    {
        self.basic.publish(event);
    }

    /// Send a request of type `Req` to the mediator.
    ///
    /// The one [`CxAwareRequestHandler`] implementation for the
    /// underlying mediator type and `Req` processes the request while
    /// reading the dependency supplied at build time; the mediator core
    /// changes exactly as that handler dictates, and the dependency is
    /// unchanged.
    pub fn send<Req>(&mut self, req: Req) where
        BasicMediator<Ev, L>: CxAwareRequestHandler<Dep, Req, Ev> + View<
            V = MediatorModel<Ev, L>,
        >,

        ensures
            final(self)@.core == <BasicMediator<Ev, L> as CxAwareRequestHandler<
                Dep,
                Req,
                Ev,
            >>::handled(old(self)@.core, req, old(self)@.dep),
            final(self)@.dep == old(self)@.dep,
    {
        <BasicMediator<Ev, L> as CxAwareRequestHandler<Dep, Req, Ev>>::handle(
            &mut self.basic,
            req,
            &self.dep,
        );
    }

    /// Read access to the dependency supplied at build time.
    pub fn dependency(&self) -> (r: &Dep)
        ensures
            *r == self@.dep,
    {
        &self.dep
    }

    /// Read access to the registered listeners, in registration order.
    pub fn listeners(&self) -> (r: &Vec<L>)
        ensures
            r@ == self@.core.listeners,
    {
        self.basic.listeners()
    }

    /// Splits the mediator into its underlying mediator and its
    /// dependency, for an embedding program that guards the two behind
    /// separate locks.
    pub fn into_parts(self) -> (r: (BasicMediator<Ev, L>, Dep))
        ensures
            r.0@ == self@.core,
            r.1 == self@.dep,
    {
        (self.basic, self.dep)
    }
}

impl<Dep, Ev: Copy, L: Listener<Ev>> CxAwareMediator<Dep, Ev, L> {
    /// Process the next published event, without blocking; see
    /// [`BasicMediator::next`]. The dependency is not involved.
    pub fn next(&mut self) -> (r: Result<(), TryRecvError>)
        ensures
            final(self)@.core == drain_model(old(self)@.core),
            final(self)@.dep == old(self)@.dep,
            r is Ok <==> old(self)@.core.queue.len() > 0,
            r is Err ==> r == Err::<(), TryRecvError>(TryRecvError::Empty),
    {
        self.basic.next()
    }
}

impl<Dep, Ev, L> SyncMediatorInternal<Ev> for CxAwareMediator<Dep, Ev, L> {
    open spec fn published(pre: CxAwareModel<Dep, Ev, L>, ev: Ev) -> CxAwareModel<Dep, Ev, L> {
        CxAwareModel { core: publish_model(pre.core, ev), dep: pre.dep }
    }

    fn publish(&mut self, event: Ev) {
        self.publish(event);
    }
}

impl<Dep, Ev: Copy, L: Listener<Ev>> SyncMediatorInternalNext for CxAwareMediator<Dep, Ev, L> {
    open spec fn drained(pre: CxAwareModel<Dep, Ev, L>) -> CxAwareModel<Dep, Ev, L> {
        CxAwareModel { core: drain_model(pre.core), dep: pre.dep }
    }

    open spec fn has_pending(m: CxAwareModel<Dep, Ev, L>) -> bool {
        m.core.queue.len() > 0
    }

    fn next(&mut self) -> Result<(), TryRecvError> {
        self.next()
    }
}

/// The [`CxAwareAsyncBuilder`] assembles a [`CxAwareMediator`].
///
/// Besides accumulating listeners it accepts the mediator's mandatory
/// dependency through [`CxAwareAsyncBuilder::add_dependency`];
/// finalizing without one fails with [`NoCxAvailable`], never with a
/// silently defaulted dependency.
pub struct CxAwareAsyncBuilder<Dep, Ev, L> {
    mediator: BasicMediator<Ev, L>,
    dep: Option<Dep>,
}

impl<Dep, Ev, L> View for CxAwareAsyncBuilder<Dep, Ev, L> {
    type V = CxAwareBuilderModel<Dep, Ev, L>;

    closed spec fn view(&self) -> CxAwareBuilderModel<Dep, Ev, L> {
        CxAwareBuilderModel { core: self.mediator@, dep: self.dep }
    }
}

impl<Dep, Ev, L> CxAwareAsyncBuilder<Dep, Ev, L> {
    /// Creates an empty builder: no listener, no pending event, and no
    /// dependency yet.
    pub fn new() -> (r: Self)
        ensures
            r@.core.queue.len() == 0,
            r@.core.listeners.len() == 0,
            r@.dep is None,
    {
        CxAwareAsyncBuilder { mediator: BasicMediator::empty(), dep: None }
    }

    /// Adds a user-defined listener, preserving registration order; the
    /// dependency, if already supplied, is untouched.
    pub fn add_listener(self, f: L) -> (r: Self)
        ensures
            r@.core.listeners == self@.core.listeners.push(f),
            r@.core.queue == self@.core.queue,
            r@.dep == self@.dep,
    {
        let mut m = self.mediator;
        m.register(f);
        CxAwareAsyncBuilder { mediator: m, dep: self.dep }
    }

    /// Supplies the dependency the mediator requires. A later call
    /// overwrites an earlier one; listeners are untouched.
    pub fn add_dependency(self, dep: Dep) -> (r: Self)
        ensures
            r@ == cx_add_dependency_model(self@, dep),
    {
        CxAwareAsyncBuilder { mediator: self.mediator, dep: Some(dep) }
    }
}

impl<M, Dep, Ev, L> BasicMediatorBuilderInterface<M, Ev, L> for CxAwareAsyncBuilder<Dep, Ev, L> {
    open spec fn listeners(self) -> Seq<L> {
        self@.core.listeners
    }

    open spec fn pending(self) -> Seq<Ev> {
        self@.core.queue
    }

    fn add_listener(self, f: L) -> Self {
        self.add_listener(f)
    }
}

impl<M, Dep, Ev, L> CxAwareMediatorBuilderInterface<M, Dep, Ev, L> for CxAwareAsyncBuilder<
    Dep,
    Ev,
    L,
> {
    open spec fn dependency(self) -> Option<Dep> {
        self@.dep
    }

    fn add_dependency(self, dep: Dep) -> Self {
        self.add_dependency(dep)
    }
}

impl<Dep, Ev, L> TryBuilderFlow<CxAwareMediator<Dep, Ev, L>> for CxAwareAsyncBuilder<Dep, Ev, L> {
    type Error = NoCxAvailable;

    open spec fn complete(self) -> bool {
        cx_build_permitted(self@)
    }

    open spec fn builds(self, m: CxAwareMediator<Dep, Ev, L>) -> bool {
        m@.core == self@.core && Some(m@.dep) == self@.dep
    }

    /// Builds the [`CxAwareMediator`]: succeeds exactly when a
    /// dependency has been supplied, carrying that dependency and the
    /// listeners registered so far; fails with [`NoCxAvailable`]
    /// otherwise.
    fn build(self) -> Result<CxAwareMediator<Dep, Ev, L>, NoCxAvailable> {
        match self.dep {
            Some(d) => Ok(CxAwareMediator { basic: self.mediator, dep: d }),
            None => Err(NoCxAvailable),
        }
    }
}

impl<Dep, Ev, L> TryBuilderInternal<
    CxAwareMediator<Dep, Ev, L>,
    CxAwareAsyncBuilder<Dep, Ev, L>,
> for CxAwareMediator<Dep, Ev, L> {
    open spec fn fresh_flow(f: CxAwareAsyncBuilder<Dep, Ev, L>) -> bool {
        f@.core.queue.len() == 0 && f@.core.listeners.len() == 0 && f@.dep is None
    }

    /// Creates a [`CxAwareAsyncBuilder`] with the goal of producing a
    /// [`CxAwareMediator`].
    fn builder() -> CxAwareAsyncBuilder<Dep, Ev, L> {
        CxAwareAsyncBuilder::new()
    }
}

} // verus!
