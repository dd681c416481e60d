use vstd::prelude::*;

use crate::listener::Listener;

verus! {

/// Mathematical model of a basic mediator: the pending events, oldest
/// first, and the registered listeners in registration order.
pub struct MediatorModel<Ev, L> {
    /// Events published and not yet drained, oldest first.
    pub queue: Seq<Ev>,
    /// Registered listeners, in registration order.
    pub listeners: Seq<L>,
}

/// Publishing appends the event at the young end of the queue and leaves
/// the listeners untouched.
pub open spec fn publish_model<Ev, L>(m: MediatorModel<Ev, L>, ev: Ev) -> MediatorModel<Ev, L> {
    MediatorModel { queue: m.queue.push(ev), listeners: m.listeners }
}

/// Draining removes the oldest pending event and delivers a copy of it to
/// every listener; on an empty queue it changes nothing.
pub open spec fn drain_model<Ev, L: Listener<Ev>>(m: MediatorModel<Ev, L>) -> MediatorModel<
    Ev,
    L,
> {
    if m.queue.len() == 0 {
        m
    } else {
        MediatorModel {
            queue: m.queue.drop_first(),
            listeners: m.listeners.map_values(|l: L| l.on_event(m.queue.first())),
        }
    }
}

/// The model after publishing the events of `evs`, in order.
pub open spec fn publish_all_model<Ev, L>(m: MediatorModel<Ev, L>, evs: Seq<Ev>) -> MediatorModel<
    Ev,
    L,
>
    decreases evs.len(),
{
    if evs.len() == 0 {
        m
    } else {
        publish_all_model(publish_model(m, evs.first()), evs.drop_first())
    }
}

/// The model after `n` successive drains.
pub open spec fn drain_n_model<Ev, L: Listener<Ev>>(m: MediatorModel<Ev, L>, n: nat) -> MediatorModel<
    Ev,
    L,
>
    decreases n,
{
    if n == 0 {
        m
    } else {
        drain_n_model(drain_model(m), (n - 1) as nat)
    }
}

/// Publishing a sequence of events appends them, in publication order, to
/// the pending queue, and registers or removes no listener.
pub proof fn lemma_publish_all_appends<Ev, L>(m: MediatorModel<Ev, L>, evs: Seq<Ev>)
    ensures
        publish_all_model(m, evs).queue == m.queue + evs,
        publish_all_model(m, evs).listeners == m.listeners,
    decreases evs.len(),
{
    if evs.len() == 0 {
        assert(m.queue + evs =~= m.queue);
    } else {
        let m1 = publish_model(m, evs.first());
        lemma_publish_all_appends(m1, evs.drop_first());
        assert(m.queue.push(evs.first()) + evs.drop_first() =~= m.queue + evs);
    }
}

/// After `n` drains, the pending queue holds exactly the events that were
/// pending beyond the first `n`, still in their original order.
pub proof fn lemma_drain_n_queue<Ev, L: Listener<Ev>>(m: MediatorModel<Ev, L>, n: nat)
    requires
        n <= m.queue.len(),
    ensures
        drain_n_model(m, n).queue == m.queue.skip(n as int),
    decreases n,
{
    if n == 0 {
        assert(m.queue.skip(0) =~= m.queue);
    } else {
        let m1 = drain_model(m);
        assert(m1.queue =~= m.queue.skip(1));
        lemma_drain_n_queue(m1, (n - 1) as nat);
        assert(m.queue.skip(1).skip(n - 1) =~= m.queue.skip(n as int));
    }
}

/// First-in-first-out delivery: publish `evs` into a mediator whose queue
/// is empty, and the `i`-th successive drain delivers exactly `evs[i]` --
/// events are never reordered and never dropped.
pub proof fn lemma_fifo<Ev, L: Listener<Ev>>(m: MediatorModel<Ev, L>, evs: Seq<Ev>, i: int)
    requires
        m.queue.len() == 0,
        0 <= i < evs.len(),
    ensures
        drain_n_model(publish_all_model(m, evs), i as nat).queue.first() == evs[i],
        drain_n_model(publish_all_model(m, evs), i as nat).queue.len() == evs.len() - i,
{
    let m0 = publish_all_model(m, evs);
    lemma_publish_all_appends(m, evs);
    assert(m0.queue =~= evs);
    lemma_drain_n_queue(m0, i as nat);
}

/// Listener fan-out: draining one pending event delivers it to every
/// registered listener exactly once, in registration order, each listener
/// receiving an equal copy of the drained event.
pub proof fn lemma_fanout<Ev, L: Listener<Ev>>(m: MediatorModel<Ev, L>)
    requires
        m.queue.len() > 0,
    ensures
        drain_model(m).listeners.len() == m.listeners.len(),
        forall|i: int|
            0 <= i < m.listeners.len() ==> drain_model(m).listeners[i] == m.listeners[i].on_event(
                m.queue.first(),
            ),
{
}

} // verus!
