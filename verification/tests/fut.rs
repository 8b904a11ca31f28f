use mssf_core::error::BridgeError;
use mssf_core::sync::channel::CompletionChannel;
use mssf_core::sync::fut::{map_received, FabricFutureImpl};
use mssf_core::sync::slot::OnceSlot;
use mssf_core::sync::token::Poll;
use std::cell::Cell;
use std::rc::Rc;

#[test]
fn mapper_runs_exactly_once() {
    let calls = Rc::new(Cell::new(0u32));
    let seen = calls.clone();
    let inner: CompletionChannel<Result<u32, i32>, u8> = CompletionChannel::new();
    let mut fut = FabricFutureImpl::new(inner, move |v: u32| {
        seen.set(seen.get() + 1);
        format!("addr-{}", v + 1)
    });
    assert!(matches!(fut.poll(1), Poll::Pending));
    assert!(matches!(fut.poll(2), Poll::Pending));
    assert_eq!(calls.get(), 0);
    assert!(!fut.is_terminated());
    assert_eq!(fut.complete(Ok(41)), Ok(Some(2)));
    match fut.poll(3) {
        Poll::Ready(Ok(text)) => assert_eq!(text, "addr-42"),
        _ => panic!("the future is ready with the mapped payload"),
    }
    assert_eq!(calls.get(), 1);
    assert!(fut.is_terminated());
    assert!(matches!(
        fut.poll(4),
        Poll::Ready(Err(BridgeError::AlreadyClaimed))
    ));
    assert!(matches!(
        fut.poll(5),
        Poll::Ready(Err(BridgeError::AlreadyClaimed))
    ));
    assert_eq!(calls.get(), 1);
    assert_eq!(fut.complete(Ok(1)), Err(BridgeError::CallbackMisuse));
}

#[test]
fn failure_is_not_mapped() {
    let calls = Rc::new(Cell::new(0u32));
    let seen = calls.clone();
    let inner: CompletionChannel<Result<u32, i32>, u8> = CompletionChannel::new();
    let mut fut = FabricFutureImpl::new(inner, move |v: u32| {
        seen.set(seen.get() + 1);
        v
    });
    assert_eq!(fut.complete(Err(-7)), Ok(None));
    assert!(matches!(
        fut.poll(1),
        Poll::Ready(Err(BridgeError::OperationFailed(-7)))
    ));
    assert_eq!(calls.get(), 0);
    assert!(fut.is_terminated());
    assert!(matches!(
        fut.poll(2),
        Poll::Ready(Err(BridgeError::AlreadyClaimed))
    ));
    assert_eq!(calls.get(), 0);
}

#[test]
fn result_that_is_there_resolves_on_first_poll() {
    let mut inner: CompletionChannel<Result<u32, i32>, u8> = CompletionChannel::new();
    assert_eq!(inner.send(Ok(20)), Ok(None));
    let mut fut = FabricFutureImpl::new(inner, |v: u32| v * 2);
    assert!(matches!(fut.poll(1), Poll::Ready(Ok(40))));
}

#[test]
fn vanished_producer_leaves_the_mapper_in_place() {
    let calls = Rc::new(Cell::new(0u32));
    let seen = calls.clone();
    let inner: CompletionChannel<Result<u32, i32>, u8> = CompletionChannel::new();
    let mut fut = FabricFutureImpl::new(inner, move |v: u32| {
        seen.set(seen.get() + 1);
        v
    });
    assert!(matches!(fut.poll(9), Poll::Pending));
    assert_eq!(fut.close(), Some(9));
    assert!(matches!(
        fut.poll(10),
        Poll::Ready(Err(BridgeError::Cancelled))
    ));
    assert!(!fut.is_terminated());
    assert_eq!(calls.get(), 0);
    assert_eq!(fut.complete(Ok(1)), Err(BridgeError::CallbackMisuse));
    assert!(matches!(
        fut.poll(11),
        Poll::Ready(Err(BridgeError::Cancelled))
    ));
}

#[test]
fn received_results_are_mapped_without_the_channel() {
    let mut mapper = OnceSlot::full(|v: u32| v + 1);
    assert!(matches!(
        map_received(&mut mapper, Poll::Pending),
        Poll::Pending
    ));
    assert!(mapper.is_full());
    assert!(matches!(
        map_received(&mut mapper, Poll::Ready(Err(BridgeError::Cancelled))),
        Poll::Ready(Err(BridgeError::Cancelled))
    ));
    assert!(mapper.is_full());
    assert!(matches!(
        map_received(&mut mapper, Poll::Ready(Ok(Ok(4)))),
        Poll::Ready(Ok(5))
    ));
    assert!(mapper.is_taken());
    assert!(matches!(
        map_received(&mut mapper, Poll::Ready(Ok(Ok(4)))),
        Poll::Ready(Err(BridgeError::AlreadyClaimed))
    ));
    let mut other = OnceSlot::full(|v: u32| v);
    assert!(matches!(
        map_received(&mut other, Poll::Ready(Ok(Err(-4)))),
        Poll::Ready(Err(BridgeError::OperationFailed(-4)))
    ));
    assert!(other.is_taken());
}
