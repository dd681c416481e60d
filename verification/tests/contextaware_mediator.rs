use std::sync::{Arc, Mutex};

use mediator_sys::basic::BasicMediator;
use mediator_sys::builder::{TryBuilderFlow, TryBuilderInternal};
use mediator_sys::contextaware::{CxAwareAsyncBuilder, CxAwareMediator};
use mediator_sys::errors::NoCxAvailable;
use mediator_sys::interface::CxAwareRequestHandler;
use mediator_sys::listener::Listener;

struct IncrementRequest;

#[derive(Debug, Clone, Copy)]
struct IncrementEvent(usize);

struct SummingListener {
    sum: usize,
}

impl Listener<IncrementEvent> for SummingListener {
    fn call(&mut self, ev: IncrementEvent) {
        self.sum += ev.0;
    }
}

impl CxAwareRequestHandler<usize, IncrementRequest, IncrementEvent>
    for BasicMediator<IncrementEvent, SummingListener>
{
    fn handle(&mut self, _req: IncrementRequest, dep: &usize) {
        self.publish(IncrementEvent(*dep))
    }
}

#[test]
fn cxaware_mediator_atomic_test_async() {
    let base_num: usize = 3;

    let mut mediator = CxAwareMediator::<usize, IncrementEvent, SummingListener>::builder()
        .add_listener(SummingListener { sum: 0 })
        .add_dependency(base_num)
        .build()
        .unwrap();

    mediator.send(IncrementRequest);

    mediator.next().ok();
    assert_eq!(mediator.listeners()[0].sum, 3usize);

    mediator.send(IncrementRequest);
    mediator.send(IncrementRequest);

    mediator.next().ok();
    mediator.next().ok();

    assert_eq!(mediator.listeners()[0].sum, 9usize);
}

impl CxAwareRequestHandler<Arc<Mutex<usize>>, IncrementRequest, IncrementEvent>
    for BasicMediator<IncrementEvent, SummingListener>
{
    fn handle(&mut self, _req: IncrementRequest, dep: &Arc<Mutex<usize>>) {
        let c = {
            let mut m = dep.lock().unwrap();
            *m = *m - 1;
            m.clone() + 1
        };

        self.publish(IncrementEvent(c))
    }
}

#[test]
fn cxaware_mediator_atomic_arc_test_async() {
    let base_num: Arc<Mutex<usize>> = Arc::new(Mutex::new(5));

    let mut mediator =
        CxAwareMediator::<Arc<Mutex<usize>>, IncrementEvent, SummingListener>::builder()
            .add_listener(SummingListener { sum: 0 })
            .add_dependency(base_num)
            .build()
            .unwrap();

    mediator.send(IncrementRequest);

    mediator.next().ok();
    assert_eq!(mediator.listeners()[0].sum, 5usize);

    mediator.send(IncrementRequest);
    mediator.send(IncrementRequest);

    mediator.next().ok();
    mediator.next().ok();

    assert_eq!(mediator.listeners()[0].sum, 12usize);
}

#[test]
fn build_without_dependency_fails() {
    let result = CxAwareAsyncBuilder::<usize, IncrementEvent, SummingListener>::new()
        .add_listener(SummingListener { sum: 0 })
        .build();

    assert!(matches!(result, Err(NoCxAvailable)));
}

#[test]
fn dependency_is_observed_exactly() {
    let mediator = CxAwareAsyncBuilder::<usize, IncrementEvent, SummingListener>::new()
        .add_dependency(42)
        .build()
        .unwrap();

    assert_eq!(*mediator.dependency(), 42usize);
}

#[test]
fn add_dependency_overwrites_earlier_value() {
    let mediator = CxAwareAsyncBuilder::<usize, IncrementEvent, SummingListener>::new()
        .add_dependency(1)
        .add_dependency(2)
        .build()
        .unwrap();

    assert_eq!(*mediator.dependency(), 2usize);
}
