use vstd::prelude::*;

verus! {

/// A [`Listener`] is a user-defined callback over the event type `Ev`.
/// A drain step invokes every registered listener once, in registration
/// order, handing each its own copy of the drained event.
///
/// An implementor describes the effect of one invocation with the
/// specification function [`Listener::on_event`], and `call` promises to
/// realize exactly that effect. The library never inspects a listener
/// beyond this contract. The default says that an invocation leaves the
/// listener unchanged; an implementor whose state matters to a proof
/// overrides it.
pub trait Listener<Ev>: Sized {
    /// The listener state after receiving `ev` in state `self`.
    open spec fn on_event(self, ev: Ev) -> Self {
        self
    }

    /// Receive one event.
    fn call(&mut self, ev: Ev)
        ensures
            *final(self) == old(self).on_event(ev),
    ;
}

} // verus!
