//! Scenario tests for the write path: staging, truncation, submission,
//! the interrupt pump, and the completion flag.

use fault_output::adapter::TransportAdapter;
use fault_output::adapter::WriteState;
use fault_output::board::Peripherals;
use fault_output::transport::RingBufferTransport;
use fault_output::transport::SerialTransport;
use fault_output::transport::Transport;

const TARGET: u32 = 39;

fn serial_port(busy: bool, broken: bool) -> Peripherals {
    Peripherals::new(Some(Transport::Serial(SerialTransport::new(busy, broken))), TARGET)
}

fn serial_of(port: &Peripherals) -> &SerialTransport {
    match &port.transport {
        Some(Transport::Serial(s)) => s,
        _ => panic!("expected the serial transport"),
    }
}

fn ring_of(port: &Peripherals) -> &RingBufferTransport {
    match &port.transport {
        Some(Transport::RingBuffer(r)) => r,
        _ => panic!("expected the ring transport"),
    }
}

#[test]
fn write_hello_over_serial() {
    // capacity 512, transport available: one submission of exactly "hello",
    // one completion interrupt on the target line, return value 5, flag down
    let mut adapter = TransportAdapter::new();
    let mut port = serial_port(false, false);
    assert!(!adapter.signal.fired);
    let n = adapter.write(&mut port, b"hello");
    assert_eq!(n, 5);
    let s = serial_of(&port);
    assert_eq!(s.submits, 1);
    assert_eq!(s.delivered, b"hello".to_vec());
    assert!(!s.busy);
    assert!(s.in_flight.is_empty());
    assert!(!adapter.signal.fired);
    assert!(matches!(adapter.state, WriteState::Idle));
    assert_eq!(port.controller.polls, 1);
    assert!(!port.controller.is_pending(TARGET));
    assert!(port.controller.is_enabled(TARGET));
}

#[test]
fn write_truncates_six_hundred_zero_bytes() {
    // the buffer keeps only the first 512 bytes; the reported count is the
    // full requested 600
    let mut adapter = TransportAdapter::new();
    let mut port = serial_port(false, false);
    let data = vec![0u8; 600];
    let n = adapter.write(&mut port, &data);
    assert_eq!(n, 600);
    assert_eq!(adapter.staged_len, 512);
    assert_eq!(adapter.buffer.bytes.len(), 512);
    assert_eq!(serial_of(&port).delivered.len(), 512);
}

#[test]
fn write_truncates_patterned_input() {
    let mut adapter = TransportAdapter::new();
    let mut port = serial_port(false, false);
    let data: Vec<u8> = (0..600u32).map(|i| (i % 251) as u8).collect();
    let n = adapter.write(&mut port, &data);
    assert_eq!(n, 600);
    assert_eq!(adapter.buffer.bytes[..], data[..512]);
    assert_eq!(serial_of(&port).delivered[..], data[..512]);
}

#[test]
fn busy_transport_rejects_without_polling() {
    // submission returns Busy: write returns at once with zero polls of the
    // controller's pending register
    let mut adapter = TransportAdapter::new();
    let mut port = serial_port(true, false);
    let n = adapter.write(&mut port, b"abc");
    assert_eq!(n, 3);
    assert_eq!(port.controller.polls, 0);
    let s = serial_of(&port);
    assert_eq!(s.submits, 1);
    assert!(s.delivered.is_empty());
    assert!(port.failure.lit);
    assert!(!port.activity.lit);
    assert!(!adapter.signal.fired);
}

#[test]
fn broken_transport_rejects_without_polling() {
    let mut adapter = TransportAdapter::new();
    let mut port = serial_port(false, true);
    let n = adapter.write(&mut port, b"abc");
    assert_eq!(n, 3);
    assert_eq!(port.controller.polls, 0);
    assert!(serial_of(&port).delivered.is_empty());
    assert!(port.failure.lit);
    assert!(!adapter.signal.fired);
}

#[test]
fn unavailable_transport_reports_full_length() {
    // never-initialized transport: full length reported, no submission, no
    // pump entry
    let mut adapter = TransportAdapter::new();
    let mut port = Peripherals::new(None, TARGET);
    let n = adapter.write(&mut port, b"xyz");
    assert_eq!(n, 3);
    assert_eq!(port.controller.polls, 0);
    assert!(port.transport.is_none());
    assert!(!port.failure.lit);
    assert!(!port.activity.lit);
    assert!(!adapter.signal.fired);
    // the copy into the buffer still happened
    assert_eq!(&adapter.buffer.bytes[..3], b"xyz");
    assert_eq!(adapter.staged_len, 3);
}

#[test]
fn zero_length_write_submits_nothing() {
    let mut adapter = TransportAdapter::new();
    let mut port = serial_port(false, false);
    let n = adapter.write(&mut port, b"");
    assert_eq!(n, 0);
    assert_eq!(serial_of(&port).submits, 0);
    assert_eq!(port.controller.polls, 0);
    assert!(!adapter.signal.fired);
}

#[test]
fn flag_is_down_before_and_after_each_write() {
    let mut adapter = TransportAdapter::new();
    assert!(!adapter.signal.fired);
    let mut port = serial_port(false, false);
    adapter.write(&mut port, b"first ");
    assert!(!adapter.signal.fired);
    adapter.write(&mut port, b"second");
    assert!(!adapter.signal.fired);
    assert_eq!(serial_of(&port).delivered, b"first second".to_vec());
    // and on the rejection path
    let mut rejected = serial_port(true, false);
    adapter.write(&mut rejected, b"x");
    assert!(!adapter.signal.fired);
}

#[test]
fn pump_defuses_other_lines_during_write() {
    // a stray pending line is cleared and re-enabled exactly once; the
    // write still completes
    let mut adapter = TransportAdapter::new();
    let mut port = serial_port(false, false);
    port.controller.raise(7);
    let n = adapter.write(&mut port, b"hi");
    assert_eq!(n, 2);
    assert!(!port.controller.is_pending(7));
    assert!(port.controller.is_enabled(7));
    assert_eq!(serial_of(&port).delivered, b"hi".to_vec());
}

#[test]
fn pump_step_never_forwards_non_target_line() {
    // drive one pump iteration by hand with a non-target line pending: the
    // line is defused and the transport driver is never entered
    let mut adapter = TransportAdapter::new();
    adapter.state = WriteState::AwaitingCompletion;
    let mut port = serial_port(true, false);
    port.controller.raise(5);
    adapter.pump_step(&mut port);
    assert!(!port.controller.is_pending(5));
    assert!(port.controller.is_enabled(5));
    assert_eq!(port.controller.polls, 1);
    assert!(!adapter.signal.fired);
    let s = serial_of(&port);
    // the in-flight transmission was not touched
    assert!(s.busy);
    assert!(s.delivered.is_empty());
}

#[test]
fn pump_step_waits_when_nothing_pending() {
    let mut adapter = TransportAdapter::new();
    adapter.state = WriteState::AwaitingCompletion;
    let mut port = serial_port(false, false);
    adapter.pump_step(&mut port);
    assert_eq!(port.controller.polls, 1);
    assert!(!adapter.signal.fired);
}

#[test]
fn ring_transport_wraps_around() {
    let mut adapter = TransportAdapter::new();
    let ring = RingBufferTransport::new(8);
    let mut port = Peripherals::new(Some(Transport::RingBuffer(ring)), TARGET);
    let n = adapter.write(&mut port, b"hello");
    assert_eq!(n, 5);
    {
        let r = ring_of(&port);
        assert_eq!(r.ring, b"hello\0\0\0".to_vec());
        assert_eq!(r.write_position, 5);
        assert_eq!(r.submits, 1);
    }
    assert!(!adapter.signal.fired);
    let n = adapter.write(&mut port, b"worlds");
    assert_eq!(n, 6);
    let r = ring_of(&port);
    assert_eq!(r.ring, b"ldslowor".to_vec());
    assert_eq!(r.write_position, 3);
    assert_eq!(r.submits, 2);
    assert_eq!(port.transport.as_ref().unwrap().submit_count(), 2);
    // the ring completes synchronously: the pump never polled
    assert_eq!(port.controller.polls, 0);
}

#[test]
fn writes_continue_after_a_rejection() {
    // a rejected submission aborts only its own write; the adapter stays
    // usable for the next one
    let mut adapter = TransportAdapter::new();
    let mut rejected = serial_port(true, false);
    adapter.write(&mut rejected, b"lost");
    let mut healthy = serial_port(false, false);
    let n = adapter.write(&mut healthy, b"kept");
    assert_eq!(n, 4);
    assert_eq!(serial_of(&healthy).delivered, b"kept".to_vec());
}

#[test]
fn pump_step_treats_idle_target_interrupt_as_spurious() {
    // the target line fires with nothing in flight: cleared and re-enabled,
    // but no completion is signalled
    let mut adapter = TransportAdapter::new();
    adapter.state = WriteState::AwaitingCompletion;
    let mut port = serial_port(false, false);
    port.controller.raise(TARGET);
    adapter.pump_step(&mut port);
    assert!(!port.controller.is_pending(TARGET));
    assert!(port.controller.is_enabled(TARGET));
    assert!(!adapter.signal.fired);
    assert!(serial_of(&port).delivered.is_empty());
}

#[test]
fn stale_pending_target_line_does_not_confuse_a_write() {
    let mut adapter = TransportAdapter::new();
    let mut port = serial_port(false, false);
    port.controller.raise(TARGET);
    let n = adapter.write(&mut port, b"ok");
    assert_eq!(n, 2);
    assert_eq!(serial_of(&port).delivered, b"ok".to_vec());
    assert!(!adapter.signal.fired);
}

#[test]
fn write_str_goes_through_the_bounded_write() {
    let mut adapter = TransportAdapter::new();
    let mut port = serial_port(false, false);
    let n = adapter.write_str(&mut port, "status: ok\r\n");
    assert_eq!(n, 12);
    assert_eq!(serial_of(&port).delivered, b"status: ok\r\n".to_vec());
    assert!(!adapter.signal.fired);
}

#[test]
fn completion_signal_callbacks() {
    let mut signal = fault_output::completion::CompletionSignal::new();
    assert!(!signal.is_set());
    signal.received(4, Ok(()));
    assert!(!signal.is_set());
    signal.transmitted(4, Err(fault_output::completion::TransportError::HardwareFault));
    assert!(signal.is_set());
    signal.clear();
    assert!(!signal.is_set());
}
