use std::sync::{Arc, Mutex};

use mediator_sys::asynchronous::BasicAsyncBuilder;
use mediator_sys::basic::BasicMediator;
use mediator_sys::builder::{BuilderFlow, BuilderInternal};
use mediator_sys::errors::TryRecvError;
use mediator_sys::interface::RequestHandler;
use mediator_sys::listener::Listener;

struct IncrementRequest;

#[derive(Debug, Clone, Copy)]
struct IncrementEvent;

struct CountingListener {
    count: usize,
}

impl Listener<IncrementEvent> for CountingListener {
    fn call(&mut self, _ev: IncrementEvent) {
        self.count += 1;
    }
}

impl RequestHandler<IncrementRequest, IncrementEvent>
    for BasicMediator<IncrementEvent, CountingListener>
{
    fn handle(&mut self, _req: IncrementRequest) {
        self.publish(IncrementEvent)
    }
}

#[test]
fn atomic_test_sync() {
    let mut mediator = BasicMediator::<IncrementEvent, CountingListener>::builder()
        .add_listener(CountingListener { count: 0 })
        .build();

    mediator.send(IncrementRequest);

    mediator.next().ok();
    assert_eq!(mediator.listeners()[0].count, 1usize);

    mediator.send(IncrementRequest);
    mediator.send(IncrementRequest);

    mediator.next().ok();
    mediator.next().ok();

    assert_eq!(mediator.listeners()[0].count, 3usize);
}

#[test]
fn atomic_test_async() {
    let mut mediator = BasicAsyncBuilder::<IncrementEvent, CountingListener>::new()
        .add_listener(CountingListener { count: 0 })
        .build();

    mediator.send(IncrementRequest);

    mediator.next().ok();
    assert_eq!(mediator.listeners()[0].count, 1usize);

    mediator.send(IncrementRequest);
    mediator.send(IncrementRequest);

    mediator.next().ok();
    mediator.next().ok();

    assert_eq!(mediator.listeners()[0].count, 3usize);
}

#[derive(Debug, Clone, Copy)]
struct ValueEvent(u32);

struct RecordingListener {
    seen: Vec<u32>,
}

impl Listener<ValueEvent> for RecordingListener {
    fn call(&mut self, ev: ValueEvent) {
        self.seen.push(ev.0);
    }
}

#[test]
fn fifo_order_is_preserved() {
    let mut mediator = BasicMediator::<ValueEvent, RecordingListener>::builder()
        .add_listener(RecordingListener { seen: Vec::new() })
        .build();

    mediator.publish(ValueEvent(10));
    mediator.publish(ValueEvent(20));
    mediator.publish(ValueEvent(30));

    assert_eq!(mediator.next(), Ok(()));
    assert_eq!(mediator.next(), Ok(()));
    assert_eq!(mediator.next(), Ok(()));

    assert_eq!(mediator.listeners()[0].seen, vec![10, 20, 30]);
    assert_eq!(mediator.next(), Err(TryRecvError::Empty));
}

#[test]
fn drain_on_fresh_mediator_is_empty() {
    let mut mediator = BasicMediator::<ValueEvent, RecordingListener>::builder()
        .add_listener(RecordingListener { seen: Vec::new() })
        .build();

    assert_eq!(mediator.next(), Err(TryRecvError::Empty));
    assert!(mediator.listeners()[0].seen.is_empty());
}

struct TaggedListener {
    id: usize,
    log: Arc<Mutex<Vec<(usize, u32)>>>,
}

impl Listener<ValueEvent> for TaggedListener {
    fn call(&mut self, ev: ValueEvent) {
        self.log.lock().unwrap().push((self.id, ev.0));
    }
}

#[test]
fn listener_fanout_in_registration_order() {
    let log: Arc<Mutex<Vec<(usize, u32)>>> = Arc::new(Mutex::new(Vec::new()));
    let mut mediator = BasicMediator::<ValueEvent, TaggedListener>::builder()
        .add_listener(TaggedListener { id: 0, log: log.clone() })
        .add_listener(TaggedListener { id: 1, log: log.clone() })
        .add_listener(TaggedListener { id: 2, log: log.clone() })
        .build();

    mediator.publish(ValueEvent(7));
    assert_eq!(mediator.next(), Ok(()));

    assert_eq!(*log.lock().unwrap(), vec![(0, 7), (1, 7), (2, 7)]);
}

#[test]
fn builder_preserves_registration_order() {
    let log: Arc<Mutex<Vec<(usize, u32)>>> = Arc::new(Mutex::new(Vec::new()));
    let mediator = BasicMediator::<ValueEvent, TaggedListener>::builder()
        .add_listener(TaggedListener { id: 0, log: log.clone() })
        .add_listener(TaggedListener { id: 1, log: log.clone() })
        .add_listener(TaggedListener { id: 2, log: log })
        .build();

    let listeners = mediator.listeners();
    assert_eq!(listeners.len(), 3);
    assert_eq!(listeners[0].id, 0);
    assert_eq!(listeners[1].id, 1);
    assert_eq!(listeners[2].id, 2);
}

struct OneRequest;

struct TwoRequest;

impl RequestHandler<OneRequest, ValueEvent> for BasicMediator<ValueEvent, RecordingListener> {
    fn handle(&mut self, _req: OneRequest) {
        self.publish(ValueEvent(1))
    }
}

impl RequestHandler<TwoRequest, ValueEvent> for BasicMediator<ValueEvent, RecordingListener> {
    fn handle(&mut self, _req: TwoRequest) {
        self.publish(ValueEvent(2))
    }
}

#[test]
fn dispatch_resolves_handler_by_request_type() {
    let mut mediator = BasicMediator::<ValueEvent, RecordingListener>::builder()
        .add_listener(RecordingListener { seen: Vec::new() })
        .build();

    mediator.send(OneRequest);
    mediator.send(TwoRequest);
    mediator.send(OneRequest);

    assert_eq!(mediator.next(), Ok(()));
    assert_eq!(mediator.next(), Ok(()));
    assert_eq!(mediator.next(), Ok(()));

    assert_eq!(mediator.listeners()[0].seen, vec![1, 2, 1]);
}
