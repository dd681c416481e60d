use vstd::prelude::*;

use crate::errors::TryRecvError;

verus! {

/// Handles the request `Req` on a mediator publishing events of type
/// `Res`. Implemented by the embedding program, once per pair of
/// mediator type and request type: the handler for a `send` is resolved
/// by the type system, never by a runtime lookup.
///
/// An implementor describes the handler's effect on the mediator's model
/// with [`RequestHandler::handled`]; `handle` promises to realize exactly
/// that effect. The default says that the handler leaves the mediator
/// unchanged; an implementor whose effect matters to a proof overrides
/// it.
pub trait RequestHandler<Req, Res>: Sized + View {
    /// The mediator model after the handler has processed `req` in model
    /// state `pre`.
    open spec fn handled(pre: Self::V, req: Req) -> Self::V {
        pre
    }

    /// Process one request.
    fn handle(&mut self, req: Req)
        ensures
            final(self)@ == Self::handled(old(self)@, req),
    ;
}

/// Publish an event `Ev` from within a handler.
pub trait SyncMediatorInternal<Ev>: Sized + View {
    /// The mediator model after `ev` has been published in model state
    /// `pre`.
    spec fn published(pre: Self::V, ev: Ev) -> Self::V;

    /// Publish one event; fire-and-forget, never an error.
    fn publish(&mut self, event: Ev)
        ensures
            final(self)@ == Self::published(old(self)@, event),
    ;
}

/// Send a request `Req` for processing to the mediator. This invokes the
/// one statically resolved handler for the request's type.
pub trait SyncMediatorInternalHandle<Ev>: Sized + View {
    /// Submit one request: the mediator changes exactly as the
    /// statically-bound handler for `Req` dictates.
    fn send<Req>(&mut self, req: Req) where Self: RequestHandler<Req, Ev>
        ensures
            final(self)@ == <Self as RequestHandler<Req, Ev>>::handled(old(self)@, req),
    ;
}

/// Process the next event from the queue without blocking. This invokes
/// all listeners, in registration order, with a copy of that event.
pub trait SyncMediatorInternalNext: Sized + View {
    /// The mediator model after one drain step in model state `pre`.
    spec fn drained(pre: Self::V) -> Self::V;

    /// Does the model state `m` hold an event waiting to be drained?
    spec fn has_pending(m: Self::V) -> bool;

    /// Drain one event, or report `Empty` without suspending.
    fn next(&mut self) -> (r: Result<(), TryRecvError>)
        ensures
            final(self)@ == Self::drained(old(self)@),
            r is Ok <==> Self::has_pending(old(self)@),
            r is Err ==> r == Err::<(), TryRecvError>(TryRecvError::Empty),
    ;
}

/// Basic builder functionality: adding a [`crate::listener::Listener`]
/// of type `L` to the builder of a mediator `M` over events `Ev`.
pub trait BasicMediatorBuilderInterface<M, Ev, L>: Sized {
    /// The listeners accumulated so far, in registration order.
    spec fn listeners(self) -> Seq<L>;

    /// The events already pending in the builder's mediator; stays empty
    /// throughout the build.
    spec fn pending(self) -> Seq<Ev>;

    /// Append one listener; registration order is preserved.
    fn add_listener(self, f: L) -> (r: Self)
        ensures
            r.listeners() == self.listeners().push(f),
            r.pending() == self.pending(),
    ;
}

/// Advanced builder functionality: supplying the dependency `Dep` that a
/// dependency-aware mediator `M` requires.
pub trait CxAwareMediatorBuilderInterface<M, Dep, Ev, L>: BasicMediatorBuilderInterface<
    M,
    Ev,
    L,
> {
    /// The dependency supplied so far, if any.
    spec fn dependency(self) -> Option<Dep>;

    /// Supply the dependency. A later call overwrites an earlier one;
    /// listeners and pending events are untouched.
    fn add_dependency(self, dep: Dep) -> (r: Self)
        ensures
            r.dependency() == Some(dep),
            r.listeners() == self.listeners(),
            r.pending() == self.pending(),
    ;
}

/// Handles the request `Req` with read access to the dependency `Dep`.
/// Implemented by the embedding program, as [`RequestHandler`] is, for
/// the dependency-aware mediator variant.
pub trait CxAwareRequestHandler<Dep, Req, Res>: Sized + View {
    /// The mediator model after the handler has processed `req` in model
    /// state `pre` while observing the dependency value `dep`. The
    /// default says that the handler leaves the mediator unchanged; an
    /// implementor whose effect matters to a proof overrides it.
    open spec fn handled(pre: Self::V, req: Req, dep: Dep) -> Self::V {
        pre
    }

    /// Process one request under the given dependency.
    fn handle(&mut self, req: Req, dep: &Dep)
        ensures
            final(self)@ == Self::handled(old(self)@, req, *dep),
    ;
}

} // verus!
