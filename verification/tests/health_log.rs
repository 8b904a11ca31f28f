use mssf_core::debug::health_log::{FixedBuff, LogAsHealth, BUFF_SIZE};
use mssf_core::debug::{wait_for_debugger, DebuggerWait, DEBUGGER_POLL_SECONDS};
use mssf_core::types::health::HealthState;
use windows_core::HSTRING;

#[test]
fn new_buffer_is_empty() {
    let mut b = FixedBuff::new();
    assert_eq!(BUFF_SIZE, 256);
    assert_eq!(b.remain(), 256);
    assert!(!b.full());
    assert_eq!(b.sequence_number(), 0);
    assert!(b.take_flushed().is_empty());
}

#[test]
fn short_write_is_kept_until_flush() {
    let mut b = FixedBuff::new();
    assert_eq!(b.write(b"hello"), 5);
    assert_eq!(b.remain(), 251);
    assert_eq!(b.sequence_number(), 0);
    assert!(b.take_flushed().is_empty());
    b.flush();
    assert_eq!(b.remain(), 256);
    assert_eq!(b.sequence_number(), 1);
    let out = b.take_flushed();
    assert_eq!(out.len(), 1);
    assert_eq!(out[0].sequence_number, 0);
    let mut expected = String::from("hello");
    for _ in 0..251 {
        expected.push('\0');
    }
    assert_eq!(out[0].data, expected);
    assert!(b.take_flushed().is_empty());
}

#[test]
fn write_that_fills_the_buffer_flushes_at_once() {
    let mut b = FixedBuff::new();
    let big = vec![b'a'; 300];
    assert_eq!(b.write(&big), 256);
    assert!(!b.full());
    assert_eq!(b.remain(), 256);
    assert_eq!(b.sequence_number(), 1);
    assert_eq!(b.write(&big[256..]), 44);
    assert_eq!(b.remain(), 212);
    let out = b.take_flushed();
    assert_eq!(out.len(), 1);
    assert_eq!(out[0].sequence_number, 0);
    assert_eq!(out[0].data, "a".repeat(256));
}

#[test]
fn sequence_numbers_grow_by_one_per_flush() {
    let mut b = FixedBuff::new();
    let chunk = vec![b'z'; 200];
    assert_eq!(b.write(&chunk), 200);
    assert_eq!(b.write(&chunk), 56);
    assert_eq!(b.write(&chunk[56..]), 144);
    b.flush();
    b.flush();
    let out = b.take_flushed();
    let numbers: Vec<i64> = out.iter().map(|f| f.sequence_number).collect();
    assert_eq!(numbers, vec![0, 1, 2]);
    assert_eq!(b.sequence_number(), 3);
    assert_eq!(out[2].data, "\0".repeat(256));
}

#[test]
fn reset_keeps_the_sequence_number() {
    let mut b = FixedBuff::new();
    assert_eq!(b.write(b"abc"), 3);
    b.reset();
    assert_eq!(b.remain(), 256);
    assert_eq!(b.sequence_number(), 0);
    b.flush();
    let out = b.take_flushed();
    assert_eq!(out[0].data, "\0".repeat(256));
}

#[test]
fn invalid_utf8_is_replaced() {
    let mut b = FixedBuff::new();
    assert_eq!(b.write(&[0xff, b'o', b'k']), 3);
    b.flush();
    let out = b.take_flushed();
    assert!(out[0].data.starts_with("\u{fffd}ok"));
}

#[test]
fn log_writer_reports_flushed_text() {
    let mut log = LogAsHealth::new("ctx");
    assert_eq!(*log.activation_context(), "ctx");
    assert_eq!(log.sequence_number(), 0);
    assert_eq!(log.write(b"line"), 4);
    log.flush();
    assert_eq!(log.sequence_number(), 1);
    let out = log.take_flushed();
    assert_eq!(out.len(), 1);
    let report = LogAsHealth::<&str>::report_flush_fn("line", out[0].sequence_number);
    assert_eq!(report.source_id, HSTRING::from("my_log_source"));
    assert_eq!(report.property, HSTRING::from("my_log_property"));
    assert_eq!(report.time_to_live_seconds, 300);
    assert_eq!(report.state, HealthState::Healthy);
    assert_eq!(report.description, HSTRING::from("line"));
    assert_eq!(report.sequence_number, 0);
    assert!(report.remove_when_expired);
}

#[test]
fn debugger_wait_steps() {
    assert_eq!(wait_for_debugger(true), DebuggerWait::Found);
    assert_eq!(wait_for_debugger(false), DebuggerWait::RetryAfter(5));
    assert_eq!(DEBUGGER_POLL_SECONDS, 5);
}
