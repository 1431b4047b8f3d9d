//! The transport adapter: a synchronous-looking bounded write built from
//! one asynchronous submission plus the fault-time interrupt pump.

use vstd::prelude::*;
use vstd::string::StringSliceAdditionalSpecFns;

use crate::board::Peripherals;
use crate::buffer::BUFFER_CAPACITY;
use crate::buffer::DiagnosticBuffer;
use crate::buffer::effective_len;
use crate::buffer::staged_bytes;
use crate::completion::CompletionSignal;
use crate::controller::InterruptController;
use crate::controller::next_count;
use crate::transport::Transport;
use crate::transport::ring_advance;
use crate::transport::ring_write;
use crate::transport::serviced;

verus! {

/// The two phases of a write, made explicit instead of ad hoc control flow:
/// between writes the adapter is idle; from submission acceptance until the
/// completion flag is observed it awaits completion.
pub enum WriteState {
    /// No transmission in flight.
    Idle,
    /// A submission was accepted; the pump is draining interrupts.
    AwaitingCompletion,
}

/// An accepted serial submission the pump still waits on: the device is
/// busy with exactly `data`, and the completion signal is registered as its
/// transmit client.
pub open spec fn serial_in_flight(t: Transport, data: Seq<u8>) -> bool {
    t matches Transport::Serial(s) && s.busy && s.tx_client_set && s.in_flight@ == data
}

/// A serial transmission of `data` observed complete: the device went
/// idle, the bytes count as delivered, and nothing else changed.
pub open spec fn serial_completed(pre: Transport, post: Transport, data: Seq<u8>) -> bool {
    match (pre, post) {
        (Transport::Serial(a), Transport::Serial(b)) => {
            &&& !b.busy
            &&& b.delivered@ == a.delivered@ + data
            &&& b.in_flight@ == Seq::<u8>::empty()
            &&& b.broken == a.broken
            &&& b.tx_client_set == a.tx_client_set
            &&& b.rx_client_set == a.rx_client_set
            &&& b.submits == a.submits
        },
        _ => false,
    }
}

/// Everything `write` promises about the hardware side, case by case: an
/// uninitialized transport and a zero-length input change nothing; a
/// rejected submission lights the failure indicator and never enters the
/// pump; an accepted one delivers exactly the staged bytes.
pub open spec fn write_outcome(pre: Peripherals, post: Peripherals, data: Seq<u8>) -> bool {
    if pre.transport is None || data.len() == 0 {
        post == pre
    } else {
        &&& post.transport is Some
        &&& match (pre.transport, post.transport) {
            (Some(Transport::Serial(a)), Some(Transport::Serial(b))) => {
                if a.busy || a.broken {
                    // submission rejected: abort without polling the controller
                    &&& post.controller == pre.controller
                    &&& b.busy == a.busy
                    &&& b.broken == a.broken
                    &&& b.delivered == a.delivered
                    &&& b.in_flight == a.in_flight
                    &&& b.submits == next_count(a.submits)
                    &&& b.tx_client_set
                    &&& b.rx_client_set
                    &&& post.failure.lit
                    &&& post.failure.ready == pre.failure.ready
                    &&& post.activity == pre.activity
                } else {
                    // accepted: the pump ran until the staged bytes were delivered
                    &&& b.delivered@ == a.delivered@ + staged_bytes(data)
                    &&& !b.busy
                    &&& b.broken == a.broken
                    &&& b.in_flight@ == Seq::<u8>::empty()
                    &&& b.submits == next_count(a.submits)
                    &&& b.tx_client_set
                    &&& b.rx_client_set
                    &&& post.activity.lit
                    &&& post.activity.ready == pre.activity.ready
                    &&& post.failure == pre.failure
                }
            },
            (Some(Transport::RingBuffer(a)), Some(Transport::RingBuffer(b))) => {
                // the ring completes synchronously; the pump is never entered
                &&& b.ring@ == ring_write(a.ring@, a.write_position as int, staged_bytes(data))
                &&& b.write_position == ring_advance(
                    a.write_position as int,
                    staged_bytes(data).len() as int,
                    a.ring@.len() as int,
                )
                &&& b.submits == next_count(a.submits)
                &&& post.controller == pre.controller
                &&& post.activity.lit
                &&& post.activity.ready == pre.activity.ready
                &&& post.failure == pre.failure
            },
            _ => false,
        }
    }
}

/// What one pump iteration does: `a0`/`a1` are the adapter before and
/// after, `p0`/`p1` the peripherals before and after.  The framing clauses
/// come first; then one case per poll outcome.  The non-target case is the
/// pump's isolation guarantee: the line is cleared and re-enabled exactly
/// once, and the transport driver is never invoked for it.
pub open spec fn pump_step_post(
    a0: TransportAdapter,
    a1: TransportAdapter,
    p0: Peripherals,
    p1: Peripherals,
) -> bool {
    let head = p0.controller.pending@[0];
    &&& a1.wf()
    &&& p1.wf()
    &&& a1.state is AwaitingCompletion
    &&& a1.buffer == a0.buffer
    &&& a1.staged_len == a0.staged_len
    &&& p1.transport is Some
    &&& p1.target_line == p0.target_line
    &&& p1.activity == p0.activity
    &&& p1.failure == p0.failure
    &&& p1.controller.polls == next_count(p0.controller.polls)
    &&& (a0.signal.fired ==> a1.signal.fired)
    // the pump re-enables what it clears and disables nothing
    &&& (forall|l: u32|
        p0.controller.enabled@.contains(l) ==> p1.controller.enabled@.contains(l))
    // it enables nothing it did not observe pending, and raises nothing
    &&& (forall|l: u32|
        p1.controller.enabled@.contains(l) ==> p0.controller.enabled@.contains(l)
            || p0.controller.pending@.contains(l))
    &&& (forall|l: u32|
        p1.controller.pending@.contains(l) ==> p0.controller.pending@.contains(l))
    // nothing pending: wait for an interrupt and change nothing else
    &&& (p0.controller.pending@.len() == 0 ==> p1.transport == p0.transport && a1.signal
        == a0.signal && p1.controller.pending == p0.controller.pending && p1.controller.enabled
        == p0.controller.enabled)
    // a non-target line: defused exactly once, never forwarded to the driver
    &&& (p0.controller.pending@.len() > 0 && head != p0.target_line ==> p1.transport
        == p0.transport && a1.signal == a0.signal && defused_once(
        p0.controller,
        p1.controller,
        head,
    ))
    // the target line: cleared, re-enabled, and handed to the driver
    &&& (p0.controller.pending@.len() > 0 && head == p0.target_line ==> defused_once(
        p0.controller,
        p1.controller,
        head,
    ) && match (p0.transport, p1.transport) {
        (Some(t0), Some(t1)) => serviced(t0, t1, a0.signal, a1.signal),
        _ => false,
    })
}

/// A pending line handled exactly once by the pump: its pending flag is
/// cleared, it is re-enabled, and every other line keeps both its pending
/// and its enabled state.
pub open spec fn defused_once(c0: InterruptController, c1: InterruptController, head: u32) -> bool {
    &&& c1.pending@.len() == c0.pending@.len() - 1
    &&& !c1.pending@.contains(head)
    &&& c1.enabled@.contains(head)
    &&& (forall|l: u32| l != head ==> c1.pending@.contains(l) == c0.pending@.contains(l))
    &&& (forall|l: u32| l != head ==> c1.enabled@.contains(l) == c0.enabled@.contains(l))
}

/// The transport adapter: owns the diagnostic buffer, the completion
/// signal, and the explicit write state.
pub struct TransportAdapter {
    /// The bounded staging buffer.
    pub buffer: DiagnosticBuffer,
    /// How many bytes of the buffer the current or last write staged.
    pub staged_len: usize,
    /// The completion signal doubling as the transport's client object.
    pub signal: CompletionSignal,
    /// Which phase of a write the adapter is in.
    pub state: WriteState,
}

impl TransportAdapter {
    /// The buffer keeps its capacity and the staged length stays inside it.
    pub open spec fn wf(self) -> bool {
        self.buffer.wf() && self.staged_len <= BUFFER_CAPACITY
    }

    /// Between writes: well-formed, idle, completion flag down.
    pub open spec fn at_rest(self) -> bool {
        self.wf() && self.state is Idle && !self.signal.fired
    }

    /// The bytes staged for the current or last write.
    pub open spec fn staged(self) -> Seq<u8> {
        self.buffer.bytes@.take(self.staged_len as int)
    }

    /// A fresh adapter around a zeroed buffer.
    pub fn new() -> (a: Self)
        ensures
            a.at_rest(),
            a.staged_len == 0,
            a.buffer.bytes@ == Seq::new(BUFFER_CAPACITY as nat, |i: int| 0u8),
    {
        TransportAdapter {
            buffer: DiagnosticBuffer::new(),
            staged_len: 0,
            signal: CompletionSignal::new(),
            state: WriteState::Idle,
        }
    }

    /// One iteration of the fault-time interrupt pump.  Poll the controller
    /// once; with nothing pending, wait for an interrupt.  A pending line
    /// is cleared and re-enabled exactly once, whatever it is; only the
    /// target line is forwarded to the transport driver's own
    /// interrupt-service routine -- every other line is defused with no
    /// handler invoked.
    pub fn pump_step(&mut self, port: &mut Peripherals)
        requires
            old(self).wf(),
            old(self).state is AwaitingCompletion,
            old(port).wf(),
            old(port).transport is Some,
        ensures
            pump_step_post(*old(self), *final(self), *old(port), *final(port)),
    {
        let target = port.target_line;
        match port.controller.next_pending() {
            None => {
                port.controller.wait_for_interrupt();
            },
            Some(line) => {
                port.controller.clear_pending(line);
                port.controller.enable(line);
                if line == target {
                    match &mut port.transport {
                        Some(t) => t.service_interrupt(&mut self.signal),
                        None => unreached(),
                    }
                }
            },
        }
    }

    /// Run the pump until the completion flag is observed.  On real
    /// hardware this loop has no time limit; in this model the accepted
    /// submission has already raised the target line, so each iteration
    /// consumes one pending line until the target is serviced.
    #[verifier::loop_isolation(false)]
    pub fn run_pump(&mut self, port: &mut Peripherals)
        requires
            old(self).wf(),
            old(self).state is AwaitingCompletion,
            !old(self).signal.fired,
            old(port).wf(),
            old(port).transport matches Some(t) && serial_in_flight(t, old(self).staged()),
            old(port).controller.pending@.contains(old(port).target_line),
        ensures
            final(self).wf(),
            final(self).state is AwaitingCompletion,
            final(self).buffer == old(self).buffer,
            final(self).staged_len == old(self).staged_len,
            final(self).signal.fired,
            final(port).wf(),
            final(port).target_line == old(port).target_line,
            final(port).activity == old(port).activity,
            final(port).failure == old(port).failure,
            forall|l: u32|
                old(port).controller.enabled@.contains(l) ==> final(port).controller.enabled@.contains(l),
            forall|l: u32|
                final(port).controller.enabled@.contains(l) ==> old(port).controller.enabled@.contains(l)
                    || old(port).controller.pending@.contains(l),
            forall|l: u32|
                final(port).controller.pending@.contains(l) ==> old(port).controller.pending@.contains(l),
            match (old(port).transport, final(port).transport) {
                (Some(a), Some(b)) => serial_completed(a, b, old(self).staged()),
                _ => false,
            },
    {
        let ghost t0 = old(port).transport;
        let ghost staged0 = old(self).staged();
        while !self.signal.is_set()
            invariant
                self.wf(),
                self.state is AwaitingCompletion,
                self.buffer == old(self).buffer,
                self.staged_len == old(self).staged_len,
                port.wf(),
                port.transport is Some,
                port.target_line == old(port).target_line,
                port.activity == old(port).activity,
                port.failure == old(port).failure,
                !self.signal.fired ==> port.transport == t0,
                !self.signal.fired ==> port.controller.pending@.contains(port.target_line),
                forall|l: u32|
                    old(port).controller.enabled@.contains(l)
                        ==> port.controller.enabled@.contains(l),
                forall|l: u32|
                    port.controller.enabled@.contains(l)
                        ==> old(port).controller.enabled@.contains(l)
                        || old(port).controller.pending@.contains(l),
                forall|l: u32|
                    port.controller.pending@.contains(l)
                        ==> old(port).controller.pending@.contains(l),
                self.signal.fired ==> match (t0, port.transport) {
                    (Some(a), Some(b)) => serial_completed(a, b, staged0),
                    _ => false,
                },
            decreases port.controller.pending@.len(),
        {
            self.pump_step(port);
        }
    }

    /// The synchronous-looking bounded write.  Stage a truncated copy of
    /// the input, and unless the transport was never brought up or the
    /// input is empty, install the completion signal as both clients and
    /// submit.  A rejected submission lights the failure indicator and
    /// aborts; an accepted one lights the activity indicator and drives the
    /// pump until completion.  The reported count is always the full
    /// requested length, even when delivery was truncated or skipped.
    pub fn write(&mut self, port: &mut Peripherals, data: &[u8]) -> (n: usize)
        requires
            old(self).at_rest(),
            old(port).wf(),
        ensures
            final(self).at_rest(),
            final(port).wf(),
            n == data@.len(),
            final(self).staged_len == effective_len(data@.len() as int),
            final(self).buffer.bytes@ == staged_bytes(data@) + old(self).buffer.bytes@.skip(
                effective_len(data@.len() as int),
            ),
            final(port).target_line == old(port).target_line,
            final(port).transport is Some == old(port).transport is Some,
            forall|l: u32|
                old(port).controller.enabled@.contains(l)
                    ==> final(port).controller.enabled@.contains(l),
            forall|l: u32|
                final(port).controller.enabled@.contains(l)
                    ==> old(port).controller.enabled@.contains(l)
                    || old(port).controller.pending@.contains(l)
                    || l == old(port).target_line,
            forall|l: u32|
                final(port).controller.pending@.contains(l)
                    ==> old(port).controller.pending@.contains(l)
                    || l == old(port).target_line,
            write_outcome(*old(port), *final(port), data@),
    {
        let n = data.len();
        let eff = self.buffer.stage(data);
        self.staged_len = eff;
        proof {
            assert(self.staged() =~= staged_bytes(data@));
        }
        if port.transport.is_none() {
            return n;
        }
        if n == 0 {
            return n;
        }
        let target = port.target_line;
        let ghost pend0 = port.controller.pending@;
        let r = match &mut port.transport {
            Some(t) => {
                t.set_transmit_client();
                t.set_receive_client();
                t.submit_transmit(
                    &self.buffer.bytes,
                    eff,
                    target,
                    &mut port.controller,
                    &mut self.signal,
                )
            },
            None => unreached(),
        };
        match r {
            Err(_) => {
                port.failure.on();
                n
            },
            Ok(_) => {
                port.activity.on();
                self.state = WriteState::AwaitingCompletion;
                if !self.signal.is_set() {
                    proof {
                        if !pend0.contains(target) {
                            assert(port.controller.pending@[pend0.len() as int] == target);
                        }
                    }
                    self.run_pump(port);
                }
                self.signal.clear();
                self.state = WriteState::Idle;
                n
            },
        }
    }

    /// Text-sink front of `write`, matching how the report formatting
    /// hands strings down: the string's bytes go through one bounded
    /// write.
    pub fn write_str(&mut self, port: &mut Peripherals, s: &str) -> (n: usize)
        requires
            old(self).at_rest(),
            old(port).wf(),
        ensures
            final(self).at_rest(),
            final(port).wf(),
            n == s.spec_bytes().len(),
            write_outcome(*old(port), *final(port), s.spec_bytes()),
    {
        self.write(port, s.as_bytes())
    }
}

/// Law: with a transport that was never brought up, a write leaves every
/// peripheral exactly as it was -- nothing is submitted, no indicator is
/// driven, and the interrupt controller is never polled.
pub proof fn lemma_unavailable_transport_write_is_silent(
    pre: Peripherals,
    post: Peripherals,
    data: Seq<u8>,
)
    requires
        pre.transport is None,
        write_outcome(pre, post, data),
    ensures
        post == pre,
        post.controller.polls == pre.controller.polls,
{
}

/// Law: a pump iteration that observes a pending non-target line defuses
/// it -- clears and re-enables it exactly once -- without invoking the
/// transport driver or touching the completion signal.
pub proof fn lemma_pump_isolates_non_target(
    a0: TransportAdapter,
    a1: TransportAdapter,
    p0: Peripherals,
    p1: Peripherals,
)
    requires
        pump_step_post(a0, a1, p0, p1),
        p0.controller.pending@.len() > 0,
        p0.controller.pending@[0] != p0.target_line,
    ensures
        p1.transport == p0.transport,
        a1.signal == a0.signal,
        defused_once(p0.controller, p1.controller, p0.controller.pending@[0]),
{
}

} // verus!
