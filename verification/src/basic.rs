use vstd::prelude::*;

use crate::builder::{BuilderFlow, BuilderInternal};
use crate::errors::TryRecvError;
use crate::interface::{
    BasicMediatorBuilderInterface, RequestHandler, SyncMediatorInternal,
    SyncMediatorInternalHandle, SyncMediatorInternalNext,
};
use crate::listener::Listener;
use crate::model::{drain_model, publish_model, MediatorModel};

verus! {

/// Basic mediator for synchronous use, with events of type `Ev` and
/// listeners of type `L`.
///
/// A [`BasicMediator`] is constructed through its builder. It receives
/// requests through [`BasicMediator::send`], which are processed by the
/// user-defined [`RequestHandler`] implementation; from within that
/// handler, events can be published with [`BasicMediator::publish`].
/// Listeners registered at build time are invoked, in registration
/// order, whenever [`BasicMediator::next`] drains an event.
///
/// The mediator's abstract state is a [`MediatorModel`]: the pending
/// events in first-in-first-out order, and the listeners. The listener
/// registry never changes after construction; only draining updates the
/// listeners' own states.
pub struct BasicMediator<Ev, L> {
    queue: Vec<Ev>,
    listener: Vec<L>,
}

impl<Ev, L> View for BasicMediator<Ev, L> {
    type V = MediatorModel<Ev, L>;

    closed spec fn view(&self) -> MediatorModel<Ev, L> {
        MediatorModel { queue: self.queue@, listeners: self.listener@ }
    }
}

impl<Ev, L> BasicMediator<Ev, L> {
    /// Publishes an event.
    ///
    /// The event joins the young end of the pending queue; the publisher
    /// never blocks and never fails. If nothing ever drains the queue,
    /// the event is simply never observed, which is not an error.
    pub fn publish(&mut self, event: Ev)
        ensures
            final(self)@ == publish_model(old(self)@, event),
    {
        self.queue.push(event);
    }

    /// Send a request of type `Req` to the mediator.
    ///
    /// The request is consumed by the one [`RequestHandler`]
    /// implementation for this mediator type and `Req`; the mediator
    /// changes exactly as that handler dictates, however often `send` is
    /// called and whatever was published before. A missing handler is a
    /// compile-time error, not a runtime condition.
    pub fn send<Req>(&mut self, req: Req) where Self: RequestHandler<Req, Ev>
        ensures
            final(self)@ == <Self as RequestHandler<Req, Ev>>::handled(old(self)@, req),
    {
        <Self as RequestHandler<Req, Ev>>::handle(self, req);
    }

    /// Read access to the registered listeners, in registration order.
    pub fn listeners(&self) -> (r: &Vec<L>)
        ensures
            r@ == self@.listeners,
    {
        &self.listener
    }

    /// Appends a listener; used by the builders while the mediator is
    /// still under construction.
    pub(crate) fn register(&mut self, f: L)
        ensures
            final(self)@.listeners == old(self)@.listeners.push(f),
            final(self)@.queue == old(self)@.queue,
    {
        self.listener.push(f);
    }

    /// An empty mediator: no pending event, no listener; used by the
    /// builders as their starting point.
    pub(crate) fn empty() -> (r: Self)
        ensures
            r@.queue.len() == 0,
            r@.listeners.len() == 0,
    {
        BasicMediator { queue: Vec::new(), listener: Vec::new() }
    }
}

impl<Ev: Copy, L: Listener<Ev>> BasicMediator<Ev, L> {
    /// Process the next published event, without blocking.
    ///
    /// If an event is pending, the oldest one is removed and every
    /// registered listener receives its own copy of it, in registration
    /// order, each listener exactly once. If no event is pending, the
    /// mediator is unchanged and `Empty` is returned; `Disconnected`
    /// never occurs, since the mediator owns both halves of its queue.
    pub fn next(&mut self) -> (r: Result<(), TryRecvError>)
        ensures
            final(self)@ == drain_model(old(self)@),
            r is Ok <==> old(self)@.queue.len() > 0,
            r is Err ==> r == Err::<(), TryRecvError>(TryRecvError::Empty),
    {
        if self.queue.len() == 0 {
            Err(TryRecvError::Empty)
        } else {
            let ev = self.queue.remove(0);
            proof {
                assert(self.queue@ =~= old(self)@.queue.drop_first());
            }
            let ghost q1 = self.queue@;
            let ghost ls0 = self.listener@;
            let n = self.listener.len();
            let mut i: usize = 0;
            while i < n
                invariant
                    i <= n,
                    n == self.listener.len(),
                    self.queue@ == q1,
                    forall|j: int| 0 <= j < i ==> self.listener@[j] == ls0[j].on_event(ev),
                    forall|j: int| i <= j < n ==> self.listener@[j] == ls0[j],
                decreases n - i,
            {
                let ghost cur = self.listener@;
                let mut l = self.listener.remove(i);
                l.call(ev);
                self.listener.insert(i, l);
                proof {
                    assert(self.listener@ =~= cur.update(i as int, l));
                }
                i += 1;
            }
            proof {
                assert(self.listener@ =~= ls0.map_values(|l: L| l.on_event(ev)));
            }
            Ok(())
        }
    }
}

impl<Ev, L> SyncMediatorInternal<Ev> for BasicMediator<Ev, L> {
    open spec fn published(pre: MediatorModel<Ev, L>, ev: Ev) -> MediatorModel<Ev, L> {
        publish_model(pre, ev)
    }

    fn publish(&mut self, event: Ev) {
        self.publish(event);
    }
}

impl<Ev, L> SyncMediatorInternalHandle<Ev> for BasicMediator<Ev, L> {
    fn send<Req>(&mut self, req: Req) where Self: RequestHandler<Req, Ev> {
        self.send(req);
    }
}

impl<Ev: Copy, L: Listener<Ev>> SyncMediatorInternalNext for BasicMediator<Ev, L> {
    open spec fn drained(pre: MediatorModel<Ev, L>) -> MediatorModel<Ev, L> {
        drain_model(pre)
    }

    open spec fn has_pending(m: MediatorModel<Ev, L>) -> bool {
        m.queue.len() > 0
    }

    fn next(&mut self) -> Result<(), TryRecvError> {
        self.next()
    }
}

/// The [`BasicBuilder`] assembles a [`BasicMediator`].
///
/// It accumulates listeners through [`BasicBuilder::add_listener`]; each
/// step consumes the builder and returns it by value, so no partially
/// built mediator is ever shared. [`BuilderFlow::build`] finalizes it,
/// and cannot fail: the basic mediator has no mandatory ingredient.
pub struct BasicBuilder<Ev, L> {
    mediator: BasicMediator<Ev, L>,
}

impl<Ev, L> View for BasicBuilder<Ev, L> {
    type V = MediatorModel<Ev, L>;

    closed spec fn view(&self) -> MediatorModel<Ev, L> {
        self.mediator@
    }
}

impl<Ev, L> BasicBuilder<Ev, L> {
    /// Adds a user-defined listener, preserving registration order.
    pub fn add_listener(self, f: L) -> (r: Self)
        ensures
            r@.listeners == self@.listeners.push(f),
            r@.queue == self@.queue,
    {
        let mut m = self.mediator;
        m.register(f);
        BasicBuilder { mediator: m }
    }
}

impl<Ev, L> BuilderInternal<BasicMediator<Ev, L>, BasicBuilder<Ev, L>> for BasicMediator<Ev, L> {
    open spec fn fresh_flow(f: BasicBuilder<Ev, L>) -> bool {
        f@.queue.len() == 0 && f@.listeners.len() == 0
    }

    /// Creates a [`BasicBuilder`] with the goal of producing a
    /// [`BasicMediator`].
    fn builder() -> BasicBuilder<Ev, L> {
        BasicBuilder { mediator: BasicMediator::empty() }
    }
}

impl<M, Ev, L> BasicMediatorBuilderInterface<M, Ev, L> for BasicBuilder<Ev, L> {
    open spec fn listeners(self) -> Seq<L> {
        self@.listeners
    }

    open spec fn pending(self) -> Seq<Ev> {
        self@.queue
    }

    fn add_listener(self, f: L) -> Self {
        self.add_listener(f)
    }
}

impl<Ev, L> BuilderFlow<BasicMediator<Ev, L>> for BasicBuilder<Ev, L> {
    open spec fn builds(self, m: BasicMediator<Ev, L>) -> bool {
        m@ == self@
    }

    /// Builds the [`BasicMediator`]: exactly the listeners registered so
    /// far, in order, and no pending event.
    fn build(self) -> BasicMediator<Ev, L> {
        self.mediator
    }
}

} // verus!
