//! Tests for the entry point and the rendered report text.

use fault_output::board::Peripherals;
use fault_output::entry::handle_fault;
use fault_output::entry::FaultContext;
use fault_output::record::FaultCause;
use fault_output::record::FaultRecord;
use fault_output::record::ProcessEntry;
use fault_output::record::ProcessState;
use fault_output::transport::RingBufferTransport;
use fault_output::transport::SerialTransport;
use fault_output::transport::Transport;

const TARGET: u32 = 39;

fn serial_context() -> FaultContext {
    FaultContext::new(Peripherals::new(
        Some(Transport::Serial(SerialTransport::new(false, false))),
        TARGET,
    ))
}

fn delivered(ctx: &FaultContext) -> &[u8] {
    match &ctx.port.transport {
        Some(Transport::Serial(s)) => &s.delivered,
        _ => panic!("expected the serial transport"),
    }
}

#[test]
fn full_report_with_process_table() {
    let mut ctx = serial_context();
    let record = FaultRecord {
        cause: FaultCause::KernelPanic,
        address: 0xDEADBEEF,
        processes: Some(vec![
            ProcessEntry { id: 1, state: ProcessState::Running },
            ProcessEntry { id: 42, state: ProcessState::Faulted },
        ]),
    };
    handle_fault(&mut ctx, &record);
    let expected = "kernel fault\r\n\
                    cause: kernel panic\r\n\
                    at address 0xdeadbeef\r\n\
                    process 1: running\r\n\
                    process 42: faulted\r\n";
    assert_eq!(delivered(&ctx), expected.as_bytes());
    assert!(ctx.port.activity.ready);
    assert!(ctx.port.failure.ready);
    assert!(ctx.port.controller.is_enabled(TARGET));
    assert!(!ctx.adapter.signal.fired);
}

#[test]
fn report_without_process_table() {
    let mut ctx = serial_context();
    let record = FaultRecord {
        cause: FaultCause::HardFault,
        address: 0x0000_0040,
        processes: None,
    };
    handle_fault(&mut ctx, &record);
    let expected = "kernel fault\r\n\
                    cause: hard fault\r\n\
                    at address 0x00000040\r\n\
                    no process table\r\n";
    assert_eq!(delivered(&ctx), expected.as_bytes());
}

#[test]
fn report_hex_and_decimal_extremes() {
    let mut ctx = serial_context();
    let record = FaultRecord {
        cause: FaultCause::MemoryFault,
        address: 0xFFFF_FFFF,
        processes: Some(vec![
            ProcessEntry { id: 0, state: ProcessState::Yielded },
            ProcessEntry { id: u32::MAX, state: ProcessState::Stopped },
        ]),
    };
    handle_fault(&mut ctx, &record);
    let expected = "kernel fault\r\n\
                    cause: memory fault\r\n\
                    at address 0xffffffff\r\n\
                    process 0: yielded\r\n\
                    process 4294967295: stopped\r\n";
    assert_eq!(delivered(&ctx), expected.as_bytes());
}

#[test]
fn report_zero_address() {
    let mut ctx = serial_context();
    let record = FaultRecord {
        cause: FaultCause::KernelPanic,
        address: 0,
        processes: None,
    };
    handle_fault(&mut ctx, &record);
    let text = String::from_utf8(delivered(&ctx).to_vec()).unwrap();
    assert!(text.contains("at address 0x00000000\r\n"));
}

#[test]
fn entry_quiesces_controller_and_arms_indicators() {
    let mut ctx = serial_context();
    // stale state from before the fault
    ctx.port.controller.raise(3);
    ctx.port.controller.enable(11);
    let record = FaultRecord {
        cause: FaultCause::HardFault,
        address: 8,
        processes: None,
    };
    handle_fault(&mut ctx, &record);
    // everything was disabled and cleared before the target line came back
    assert!(!ctx.port.controller.is_enabled(11));
    assert!(!ctx.port.controller.is_pending(3));
    assert!(ctx.port.controller.is_enabled(TARGET));
    assert!(ctx.port.activity.ready);
    assert!(ctx.port.failure.ready);
    // the submission was accepted, so the activity indicator is lit and the
    // failure indicator is not
    assert!(ctx.port.activity.lit);
    assert!(!ctx.port.failure.lit);
}

#[test]
fn ring_backed_report_lands_in_the_ring() {
    let mut ctx = FaultContext::new(Peripherals::new(
        Some(Transport::RingBuffer(RingBufferTransport::new(1024))),
        TARGET,
    ));
    let record = FaultRecord {
        cause: FaultCause::KernelPanic,
        address: 0xCAFE_F00D,
        processes: None,
    };
    handle_fault(&mut ctx, &record);
    let expected = "kernel fault\r\n\
                    cause: kernel panic\r\n\
                    at address 0xcafef00d\r\n\
                    no process table\r\n";
    let r = match &ctx.port.transport {
        Some(Transport::RingBuffer(r)) => r,
        _ => panic!("expected the ring transport"),
    };
    assert_eq!(&r.ring[..expected.len()], expected.as_bytes());
    assert_eq!(r.write_position, expected.len());
    assert!(r.ring[expected.len()..].iter().all(|&b| b == 0));
}

#[test]
fn entry_degrades_silently_without_transport() {
    let mut ctx = FaultContext::new(Peripherals::new(None, TARGET));
    let record = FaultRecord {
        cause: FaultCause::KernelPanic,
        address: 0x1234_5678,
        processes: Some(vec![ProcessEntry { id: 7, state: ProcessState::Running }]),
    };
    handle_fault(&mut ctx, &record);
    assert!(ctx.port.transport.is_none());
    assert!(ctx.port.activity.ready);
    assert!(ctx.port.failure.ready);
    assert!(!ctx.adapter.signal.fired);
}

#[test]
fn entry_with_busy_transport_lights_failure() {
    let mut ctx = FaultContext::new(Peripherals::new(
        Some(Transport::Serial(SerialTransport::new(true, false))),
        TARGET,
    ));
    let record = FaultRecord {
        cause: FaultCause::HardFault,
        address: 4,
        processes: None,
    };
    handle_fault(&mut ctx, &record);
    assert!(ctx.port.failure.lit);
    assert!(delivered(&ctx).is_empty());
    assert!(!ctx.adapter.signal.fired);
}
