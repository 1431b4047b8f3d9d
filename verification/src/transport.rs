//! The transport backends the fault path can write through: the
//! asynchronous serial device reused from normal operation, and the
//! in-memory ring alternative.  Both are modeled as explicit state so that
//! what a submission does -- which bytes go where, when the completion
//! callback runs -- is part of the verified contracts.

use vstd::prelude::*;

use crate::completion::CompletionSignal;
use crate::completion::TransportError;
use crate::controller::InterruptController;
use crate::controller::next_count;

verus! {

/// Bytes staged for transmission: the prefix of `data` of length `len`.
pub open spec fn prefix_of(data: Seq<u8>, len: int) -> Seq<u8> {
    data.take(len)
}

/// Copy the first `len` bytes of `data` into a fresh vector.
fn copy_prefix(data: &Vec<u8>, len: usize) -> (out: Vec<u8>)
    requires
        len <= data@.len(),
    ensures
        out@ == prefix_of(data@, len as int),
{
    let mut out: Vec<u8> = Vec::new();
    let mut i: usize = 0;
    while i < len
        invariant
            i <= len,
            len <= data@.len(),
            out@ == data@.take(i as int),
        decreases len - i,
    {
        out.push(data[i]);
        proof {
            assert(data@.take(i + 1 as int) =~= data@.take(i as int).push(data@[i as int]));
        }
        i = i + 1;
    }
    out
}

/// The serial-over-USB device, modeled by its observable protocol state: a
/// busy bit, a hardware-failure mode, the bytes of the transmission in
/// flight, the bytes delivered so far, which clients are registered, and a
/// count of submissions.
pub struct SerialTransport {
    /// A transmission is in flight.
    pub busy: bool,
    /// The hardware rejects every submission.
    pub broken: bool,
    /// Bytes of the accepted, not yet completed transmission.
    pub in_flight: Vec<u8>,
    /// Everything delivered by completed transmissions, in order.
    pub delivered: Vec<u8>,
    /// A transmit client is registered.
    pub tx_client_set: bool,
    /// A receive client is registered.
    pub rx_client_set: bool,
    /// How many submissions were attempted.
    pub submits: u64,
}

impl SerialTransport {
    /// A device with no history; `busy` and `broken` describe the state the
    /// fault found it in.
    pub fn new(busy: bool, broken: bool) -> (t: Self)
        ensures
            t.busy == busy,
            t.broken == broken,
            t.in_flight@ == Seq::<u8>::empty(),
            t.delivered@ == Seq::<u8>::empty(),
            !t.tx_client_set,
            !t.rx_client_set,
            t.submits == 0,
    {
        SerialTransport {
            busy,
            broken,
            in_flight: Vec::new(),
            delivered: Vec::new(),
            tx_client_set: false,
            rx_client_set: false,
            submits: 0,
        }
    }

    /// Submit the first `len` bytes of `data` for asynchronous
    /// transmission.  A busy or broken device rejects the submission and
    /// changes nothing; otherwise the device latches the bytes, becomes
    /// busy, and raises its interrupt line on the controller.
    pub fn submit_transmit(
        &mut self,
        data: &Vec<u8>,
        len: usize,
        line: u32,
        ctrl: &mut InterruptController,
    ) -> (r: Result<(), TransportError>)
        requires
            len <= data@.len(),
            old(ctrl).wf(),
        ensures
            final(ctrl).wf(),
            final(self).submits == next_count(old(self).submits),
            final(self).broken == old(self).broken,
            final(self).delivered == old(self).delivered,
            final(self).tx_client_set == old(self).tx_client_set,
            final(self).rx_client_set == old(self).rx_client_set,
            old(self).busy ==> r == Err::<(), TransportError>(TransportError::Busy)
                && final(self).busy && final(self).in_flight == old(self).in_flight && *final(ctrl)
                == *old(ctrl),
            !old(self).busy && old(self).broken ==> r == Err::<(), TransportError>(
                TransportError::HardwareFault,
            ) && !final(self).busy && final(self).in_flight == old(self).in_flight && *final(ctrl)
                == *old(ctrl),
            !old(self).busy && !old(self).broken ==> r == Ok::<(), TransportError>(())
                && final(self).busy && final(self).in_flight@ == prefix_of(data@, len as int)
                && final(ctrl).pending@ == (if old(ctrl).pending@.contains(line) {
                old(ctrl).pending@
            } else {
                old(ctrl).pending@.push(line)
            }) && final(ctrl).enabled == old(ctrl).enabled && final(ctrl).polls == old(ctrl).polls,
    {
        if self.submits < u64::MAX {
            self.submits = self.submits + 1;
        }
        if self.busy {
            Err(TransportError::Busy)
        } else if self.broken {
            Err(TransportError::HardwareFault)
        } else {
            self.in_flight = copy_prefix(data, len);
            self.busy = true;
            ctrl.raise(line);
            Ok(())
        }
    }

    /// The device's own interrupt-service routine.  If a transmission is in
    /// flight it finishes now: the bytes count as delivered, the device goes
    /// idle, and the registered transmit client -- the completion signal --
    /// is notified.  With nothing in flight the interrupt is spurious and
    /// nothing happens.
    pub fn service_interrupt(&mut self, signal: &mut CompletionSignal)
        ensures
            final(self).broken == old(self).broken,
            final(self).tx_client_set == old(self).tx_client_set,
            final(self).rx_client_set == old(self).rx_client_set,
            final(self).submits == old(self).submits,
            old(self).busy ==> !final(self).busy && final(self).delivered@ == old(self).delivered@
                + old(self).in_flight@ && final(self).in_flight@ == Seq::<u8>::empty() && (if old(
                self,
            ).tx_client_set {
                final(signal).fired
            } else {
                *final(signal) == *old(signal)
            }),
            !old(self).busy ==> *final(self) == *old(self) && *final(signal) == *old(signal),
    {
        if self.busy {
            let ghost pre = *self;
            let n = self.in_flight.len();
            let mut i: usize = 0;
            while i < n
                invariant
                    i <= n,
                    n == pre.in_flight@.len(),
                    self.in_flight == pre.in_flight,
                    self.busy == pre.busy,
                    self.broken == pre.broken,
                    self.tx_client_set == pre.tx_client_set,
                    self.rx_client_set == pre.rx_client_set,
                    self.submits == pre.submits,
                    self.delivered@ == pre.delivered@ + pre.in_flight@.take(i as int),
                decreases n - i,
            {
                self.delivered.push(self.in_flight[i]);
                proof {
                    assert(pre.in_flight@.take(i + 1 as int) =~= pre.in_flight@.take(
                        i as int,
                    ).push(pre.in_flight@[i as int]));
                }
                i = i + 1;
            }
            proof {
                assert(pre.in_flight@.take(n as int) =~= pre.in_flight@);
            }
            self.in_flight = Vec::new();
            self.busy = false;
            if self.tx_client_set {
                signal.transmitted(n, Ok(()));
            }
        }
    }
}

/// What the ring holds after writing `data` byte by byte starting at `pos`,
/// wrapping at the end; later bytes overwrite earlier ones if `data` is
/// longer than the ring.
pub open spec fn ring_write(ring: Seq<u8>, pos: int, data: Seq<u8>) -> Seq<u8>
    recommends
        0 <= pos < ring.len(),
    decreases data.len(),
{
    if data.len() == 0 || ring.len() == 0 {
        ring
    } else {
        ring_write(
            ring.update(pos, data.first()),
            if pos + 1 >= ring.len() {
                0
            } else {
                pos + 1
            },
            data.drop_first(),
        )
    }
}

/// The write position after advancing `count` steps around a ring of
/// length `len`.
pub open spec fn ring_advance(pos: int, count: int, len: int) -> int
    decreases count,
{
    if count <= 0 || len <= 0 {
        pos
    } else {
        ring_advance(
            if pos + 1 >= len {
                0
            } else {
                pos + 1
            },
            count - 1,
            len,
        )
    }
}

/// The in-memory ring alternative: a fixed buffer written round-robin.  A
/// submission always succeeds and completes synchronously, so the client is
/// notified before the submission returns.
pub struct RingBufferTransport {
    /// The ring storage; its length never changes.
    pub ring: Vec<u8>,
    /// Where the next byte goes.
    pub write_position: usize,
    /// How many submissions were attempted.
    pub submits: u64,
}

impl RingBufferTransport {
    /// The ring is non-empty and the write position is inside it.
    pub open spec fn wf(self) -> bool {
        self.ring@.len() > 0 && self.write_position < self.ring@.len()
    }

    /// A zeroed ring of the given capacity.
    pub fn new(capacity: usize) -> (t: Self)
        requires
            capacity > 0,
        ensures
            t.wf(),
            t.ring@ == Seq::new(capacity as nat, |i: int| 0u8),
            t.write_position == 0,
            t.submits == 0,
    {
        let mut ring: Vec<u8> = Vec::new();
        let mut i: usize = 0;
        while i < capacity
            invariant
                i <= capacity,
                ring@ == Seq::new(i as nat, |j: int| 0u8),
            decreases capacity - i,
        {
            ring.push(0u8);
            proof {
                assert(Seq::new((i + 1) as nat, |j: int| 0u8) =~= Seq::new(i as nat, |j: int| 0u8)
                    .push(0u8));
            }
            i = i + 1;
        }
        RingBufferTransport { ring, write_position: 0, submits: 0 }
    }

    /// Copy the first `len` bytes of `data` into the ring, wrapping at the
    /// end, and notify the client at once: the ring has no asynchronous
    /// completion to wait for.
    #[verifier::loop_isolation(false)]
    pub fn submit_transmit(
        &mut self,
        data: &Vec<u8>,
        len: usize,
        signal: &mut CompletionSignal,
    ) -> (r: Result<(), TransportError>)
        requires
            len <= data@.len(),
            old(self).wf(),
        ensures
            final(self).wf(),
            r == Ok::<(), TransportError>(()),
            final(self).submits == next_count(old(self).submits),
            final(self).ring@ == ring_write(
                old(self).ring@,
                old(self).write_position as int,
                prefix_of(data@, len as int),
            ),
            final(self).write_position == ring_advance(
                old(self).write_position as int,
                len as int,
                old(self).ring@.len() as int,
            ),
            final(signal).fired,
    {
        if self.submits < u64::MAX {
            self.submits = self.submits + 1;
        }
        let ghost pre = *self;
        let ghost staged = data@.take(len as int);
        proof {
            assert(staged.len() == len as int);
            assert(staged.skip(0) =~= staged);
        }
        let mut i: usize = 0;
        while i < len
            invariant
                i <= len,
                len <= data@.len(),
                self.ring@.len() == pre.ring@.len(),
                self.write_position < self.ring@.len(),
                self.submits == pre.submits,
                ring_write(self.ring@, self.write_position as int, staged.skip(i as int))
                    == ring_write(pre.ring@, pre.write_position as int, staged),
                ring_advance(
                    self.write_position as int,
                    (len - i) as int,
                    pre.ring@.len() as int,
                ) == ring_advance(pre.write_position as int, len as int, pre.ring@.len() as int),
            decreases len - i,
        {
            let ghost before = *self;
            let p = self.write_position;
            self.ring[p] = data[i];
            let cap = self.ring.len();
            self.write_position = if p >= cap - 1 {
                0
            } else {
                p + 1
            };
            proof {
                let rest = staged.skip(i as int);
                assert(rest.len() > 0);
                assert(rest.first() == staged[i as int]);
                assert(staged[i as int] == data@[i as int]);
                assert(rest.drop_first() =~= staged.skip(i + 1 as int));
                assert(self.ring@ == before.ring@.update(p as int, data@[i as int]));
                assert(ring_write(before.ring@, p as int, rest) == ring_write(
                    self.ring@,
                    self.write_position as int,
                    staged.skip(i + 1 as int),
                ));
            }
            i = i + 1;
        }
        proof {
            assert(staged.skip(len as int) =~= Seq::<u8>::empty());
        }
        signal.transmitted(len, Ok(()));
        Ok(())
    }
}

/// What one submission does, over both backends: how the transport, the
/// interrupt controller and the completion signal before the call relate to
/// their state after it, and which result comes back.
pub open spec fn submit_post(
    pre: Transport,
    post: Transport,
    data: Seq<u8>,
    len: int,
    line: u32,
    c0: InterruptController,
    c1: InterruptController,
    s0: CompletionSignal,
    s1: CompletionSignal,
    r: Result<(), TransportError>,
) -> bool {
    match (pre, post) {
        (Transport::Serial(a), Transport::Serial(b)) => {
            &&& b.broken == a.broken
            &&& b.delivered == a.delivered
            &&& b.tx_client_set == a.tx_client_set
            &&& b.rx_client_set == a.rx_client_set
            &&& b.submits == next_count(a.submits)
            &&& s1 == s0
            &&& if a.busy {
                &&& r == Err::<(), TransportError>(TransportError::Busy)
                &&& b.busy
                &&& b.in_flight == a.in_flight
                &&& c1 == c0
            } else if a.broken {
                &&& r == Err::<(), TransportError>(TransportError::HardwareFault)
                &&& !b.busy
                &&& b.in_flight == a.in_flight
                &&& c1 == c0
            } else {
                &&& r == Ok::<(), TransportError>(())
                &&& b.busy
                &&& b.in_flight@ == prefix_of(data, len)
                &&& c1.pending@ == (if c0.pending@.contains(line) {
                    c0.pending@
                } else {
                    c0.pending@.push(line)
                })
                &&& c1.enabled == c0.enabled
                &&& c1.polls == c0.polls
            }
        },
        (Transport::RingBuffer(a), Transport::RingBuffer(b)) => {
            &&& r == Ok::<(), TransportError>(())
            &&& b.ring@ == ring_write(a.ring@, a.write_position as int, prefix_of(data, len))
            &&& b.write_position == ring_advance(
                a.write_position as int,
                len,
                a.ring@.len() as int,
            )
            &&& b.submits == next_count(a.submits)
            &&& s1.fired
            &&& c1 == c0
        },
        _ => false,
    }
}

/// What the backend's interrupt-service routine does: a busy serial device
/// finishes its transmission and notifies the registered transmit client;
/// an idle device and the ring treat the interrupt as spurious.
pub open spec fn serviced(
    pre: Transport,
    post: Transport,
    s0: CompletionSignal,
    s1: CompletionSignal,
) -> bool {
    match (pre, post) {
        (Transport::Serial(a), Transport::Serial(b)) => {
            if a.busy {
                &&& !b.busy
                &&& b.delivered@ == a.delivered@ + a.in_flight@
                &&& b.in_flight@ == Seq::<u8>::empty()
                &&& b.broken == a.broken
                &&& b.tx_client_set == a.tx_client_set
                &&& b.rx_client_set == a.rx_client_set
                &&& b.submits == a.submits
                &&& if a.tx_client_set {
                    s1.fired
                } else {
                    s1 == s0
                }
            } else {
                b == a && s1 == s0
            }
        },
        (Transport::RingBuffer(a), Transport::RingBuffer(b)) => b == a && s1 == s0,
        _ => false,
    }
}

/// The closed set of transport backends, chosen at configuration time.
pub enum Transport {
    /// The asynchronous serial-over-USB device.
    Serial(SerialTransport),
    /// The in-memory ring alternative.
    RingBuffer(RingBufferTransport),
}

impl Transport {
    /// Backend-specific well-formedness.
    pub open spec fn wf(self) -> bool {
        match self {
            Transport::Serial(_) => true,
            Transport::RingBuffer(r) => r.wf(),
        }
    }

    /// How many submissions were attempted on this backend.
    pub open spec fn spec_submits(self) -> u64 {
        match self {
            Transport::Serial(t) => t.submits,
            Transport::RingBuffer(r) => r.submits,
        }
    }

    /// Exec view of the submission count, for callers outside the proof.
    pub fn submit_count(&self) -> (n: u64)
        ensures
            n == self.spec_submits(),
    {
        match self {
            Transport::Serial(t) => t.submits,
            Transport::RingBuffer(r) => r.submits,
        }
    }

    /// Register the transmit client, replacing whatever was there.  The
    /// ring backend has no client registry, so for it this is a no-op.
    pub fn set_transmit_client(&mut self)
        ensures
            match (*old(self), *final(self)) {
                (Transport::Serial(a), Transport::Serial(b)) => b == SerialTransport {
                    tx_client_set: true,
                    ..a
                },
                (Transport::RingBuffer(a), Transport::RingBuffer(b)) => b == a,
                _ => false,
            },
    {
        match self {
            Transport::Serial(t) => t.tx_client_set = true,
            Transport::RingBuffer(_) => {},
        }
    }

    /// Submit the first `len` bytes of `data` on whichever backend this is.
    /// The serial device latches the bytes and raises `line` on the
    /// controller; the ring copies them and completes synchronously through
    /// the signal.
    pub fn submit_transmit(
        &mut self,
        data: &Vec<u8>,
        len: usize,
        line: u32,
        ctrl: &mut InterruptController,
        signal: &mut CompletionSignal,
    ) -> (r: Result<(), TransportError>)
        requires
            len <= data@.len(),
            old(self).wf(),
            old(ctrl).wf(),
        ensures
            final(self).wf(),
            final(ctrl).wf(),
            submit_post(
                *old(self),
                *final(self),
                data@,
                len as int,
                line,
                *old(ctrl),
                *final(ctrl),
                *old(signal),
                *final(signal),
                r,
            ),
    {
        match self {
            Transport::Serial(t) => t.submit_transmit(data, len, line, ctrl),
            Transport::RingBuffer(t) => t.submit_transmit(data, len, signal),
        }
    }

    /// Forward control to the backend's own interrupt-service routine.  The
    /// ring has no interrupts, so for it any such call is spurious.
    pub fn service_interrupt(&mut self, signal: &mut CompletionSignal)
        ensures
            final(self).wf() == old(self).wf(),
            serviced(*old(self), *final(self), *old(signal), *final(signal)),
    {
        match self {
            Transport::Serial(t) => t.service_interrupt(signal),
            Transport::RingBuffer(_) => {},
        }
    }

    /// Register the receive client, replacing whatever was there.
    pub fn set_receive_client(&mut self)
        ensures
            match (*old(self), *final(self)) {
                (Transport::Serial(a), Transport::Serial(b)) => b == SerialTransport {
                    rx_client_set: true,
                    ..a
                },
                (Transport::RingBuffer(a), Transport::RingBuffer(b)) => b == a,
                _ => false,
            },
    {
        match self {
            Transport::Serial(t) => t.rx_client_set = true,
            Transport::RingBuffer(_) => {},
        }
    }
}

} // verus!
