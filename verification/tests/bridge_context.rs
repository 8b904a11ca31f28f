use mssf_core::error::BridgeError;
use mssf_core::sync::bridge_context::BridgeContext;
use mssf_core::sync::token::Poll;

#[test]
fn end_before_callback_is_not_ready() {
    let mut ctx: BridgeContext<String, u32> = BridgeContext::make(42);
    assert_eq!(ctx.callback(), 42);
    assert!(!ctx.is_completed());
    assert!(!ctx.completed_synchronously());
    assert_eq!(ctx.result(), Err(BridgeError::NotReady));
    assert_eq!(ctx.result(), Err(BridgeError::NotReady));
    assert!(matches!(ctx.poll_result(5), Poll::Pending));
    assert!(!ctx.is_completed());
}

#[test]
fn end_after_callback_returns_the_payload_once() {
    let mut ctx: BridgeContext<String, u32> = BridgeContext::make(7);
    let note = ctx.complete(Ok("X".to_string())).unwrap();
    assert_eq!(note.callback, 7);
    assert_eq!(note.waiter, None);
    assert!(ctx.is_completed());
    assert_eq!(ctx.result(), Ok("X".to_string()));
    assert_eq!(ctx.result(), Err(BridgeError::AlreadyClaimed));
    assert!(matches!(
        ctx.poll_result(1),
        Poll::Ready(Err(BridgeError::AlreadyClaimed))
    ));
    assert!(ctx.is_completed());
}

#[test]
fn waiting_end_is_woken_by_the_completion() {
    let mut ctx: BridgeContext<u8, u32> = BridgeContext::make(1);
    assert!(matches!(ctx.poll_result(77), Poll::Pending));
    let note = ctx.complete(Ok(5)).unwrap();
    assert_eq!(note.callback, 1);
    assert_eq!(note.waiter, Some(77));
    assert!(matches!(ctx.poll_result(78), Poll::Ready(Ok(5))));
    assert_eq!(ctx.result(), Err(BridgeError::AlreadyClaimed));
}

#[test]
fn failure_code_is_passed_on_unchanged() {
    let mut ctx: BridgeContext<u8, u32> = BridgeContext::make(1);
    assert!(ctx.complete(Err(-2147017726)).is_ok());
    assert_eq!(ctx.result(), Err(BridgeError::OperationFailed(-2147017726)));
    assert_eq!(ctx.result(), Err(BridgeError::AlreadyClaimed));
}

#[test]
fn second_completion_is_rejected() {
    let mut ctx: BridgeContext<u8, u32> = BridgeContext::make(1);
    assert!(ctx.complete(Ok(1)).is_ok());
    assert!(matches!(ctx.complete(Ok(2)), Err(BridgeError::CallbackMisuse)));
    assert_eq!(ctx.result(), Ok(1));
    assert!(matches!(ctx.complete(Ok(3)), Err(BridgeError::CallbackMisuse)));
    assert_eq!(ctx.result(), Err(BridgeError::AlreadyClaimed));
}

#[test]
fn abort_before_callback_gives_cancelled() {
    let mut ctx: BridgeContext<u8, u32> = BridgeContext::make(1);
    let mut fut = ctx.cancelled();
    assert!(matches!(ctx.poll_cancelled(&mut fut, 31), Poll::Pending));
    assert!(!ctx.is_cancelled());
    assert_eq!(ctx.cancel(), vec![31]);
    assert!(ctx.is_cancelled());
    assert!(matches!(ctx.poll_cancelled(&mut fut, 31), Poll::Ready(())));
    assert!(fut.resolved());
    assert_eq!(ctx.result(), Err(BridgeError::Cancelled));
    assert!(matches!(ctx.poll_result(32), Poll::Pending));
    let note = ctx.complete(Err(-1)).unwrap();
    assert_eq!(note.waiter, Some(32));
    assert_eq!(ctx.result(), Err(BridgeError::OperationFailed(-1)));
    assert_eq!(ctx.result(), Err(BridgeError::AlreadyClaimed));
    assert!(ctx.cancel().is_empty());
}

#[test]
fn cancel_after_completion_keeps_the_outcome() {
    let mut ctx: BridgeContext<u8, u32> = BridgeContext::make(1);
    assert!(ctx.complete(Ok(4)).is_ok());
    assert!(ctx.cancel().is_empty());
    assert_eq!(ctx.result(), Ok(4));
}

#[test]
fn task_that_is_gone_gives_cancelled() {
    let mut ctx: BridgeContext<u8, u32> = BridgeContext::make(1);
    assert!(matches!(ctx.poll_result(3), Poll::Pending));
    assert_eq!(ctx.abandon(), Some(3));
    assert!(!ctx.is_completed());
    assert!(!ctx.is_cancelled());
    assert_eq!(ctx.result(), Err(BridgeError::Cancelled));
    assert!(matches!(
        ctx.poll_result(4),
        Poll::Ready(Err(BridgeError::Cancelled))
    ));
    assert!(matches!(ctx.complete(Ok(1)), Err(BridgeError::CallbackMisuse)));
    assert_eq!(ctx.abandon(), None);
}

#[test]
fn abandon_after_completion_keeps_the_outcome() {
    let mut ctx: BridgeContext<u8, u32> = BridgeContext::make(1);
    assert!(ctx.complete(Ok(8)).is_ok());
    assert_eq!(ctx.abandon(), None);
    assert_eq!(ctx.result(), Ok(8));
}
