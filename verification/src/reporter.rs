//! The diagnostic reporter: renders a fault record into a human-readable,
//! multi-line text report and feeds it to the transport adapter in bounded
//! chunks, one line per write.  No retries: if a chunk is truncated or a
//! submission fails, the loss is accepted.

use vstd::prelude::*;
use vstd::string::StringSliceAdditionalSpecFns;

use crate::adapter::TransportAdapter;
use crate::board::Peripherals;
use crate::buffer::staged_bytes;
use crate::record::FaultCause;
use crate::record::FaultRecord;
use crate::record::ProcessEntry;
use crate::record::ProcessState;
use crate::transport::Transport;
use crate::transport::ring_advance;
use crate::transport::ring_write;

verus! {

/// A chunk as it survives one bounded write: truncated to the buffer
/// capacity.  The report's lines are far shorter than the buffer, but the
/// contracts do not depend on that.
pub open spec fn truncated(line: Seq<u8>) -> Seq<u8> {
    staged_bytes(line)
}

/// Line terminator used throughout the report.
pub open spec fn crlf() -> Seq<u8> {
    "\r\n".spec_bytes()
}

/// The report's opening line.
pub open spec fn banner_bytes() -> Seq<u8> {
    "kernel fault\r\n".spec_bytes()
}

/// Text for each fault cause.
pub open spec fn cause_name_bytes(c: FaultCause) -> Seq<u8> {
    match c {
        FaultCause::KernelPanic => "kernel panic".spec_bytes(),
        FaultCause::HardFault => "hard fault".spec_bytes(),
        FaultCause::MemoryFault => "memory fault".spec_bytes(),
    }
}

/// The line naming the cause.
pub open spec fn cause_line_bytes(c: FaultCause) -> Seq<u8> {
    "cause: ".spec_bytes() + cause_name_bytes(c) + crlf()
}

/// Sixteenth powers used to pick hexadecimal digits out of a word.
pub open spec fn pow16(k: int) -> u32 {
    if k <= 0 {
        1
    } else if k == 1 {
        16
    } else if k == 2 {
        256
    } else if k == 3 {
        4096
    } else if k == 4 {
        65536
    } else if k == 5 {
        1048576
    } else if k == 6 {
        16777216
    } else {
        268435456
    }
}

/// The byte for one hexadecimal digit, lower case.
pub open spec fn spec_hex_digit(d: u8) -> u8 {
    if d < 10 {
        (48 + d) as u8
    } else {
        (87 + d) as u8
    }
}

/// Eight hexadecimal digits of a 32-bit address, most significant first.
pub open spec fn hex_bytes(a: u32) -> Seq<u8> {
    Seq::new(8, |i: int| spec_hex_digit(((a / pow16(7 - i)) % 16) as u8))
}

/// The line locating the fault.
pub open spec fn address_line_bytes(a: u32) -> Seq<u8> {
    "at address 0x".spec_bytes() + hex_bytes(a) + crlf()
}

/// Decimal digits of a number, most significant first.
pub open spec fn dec_bytes(n: nat) -> Seq<u8>
    decreases n,
{
    if n < 10 {
        seq![(48 + n) as u8]
    } else {
        dec_bytes(n / 10).push((48 + n % 10) as u8)
    }
}

/// Text for each process state.
pub open spec fn state_name_bytes(s: ProcessState) -> Seq<u8> {
    match s {
        ProcessState::Running => "running".spec_bytes(),
        ProcessState::Yielded => "yielded".spec_bytes(),
        ProcessState::Faulted => "faulted".spec_bytes(),
        ProcessState::Stopped => "stopped".spec_bytes(),
    }
}

/// One row of the process-table dump.
pub open spec fn process_line_bytes(e: ProcessEntry) -> Seq<u8> {
    "process ".spec_bytes() + dec_bytes(e.id as nat) + ": ".spec_bytes() + state_name_bytes(
        e.state,
    ) + crlf()
}

/// The line reported when no snapshot was available.
pub open spec fn no_table_bytes() -> Seq<u8> {
    "no process table\r\n".spec_bytes()
}

/// The process-table rows, in table order, each truncated as one chunk.
pub open spec fn process_lines_bytes(entries: Seq<ProcessEntry>) -> Seq<u8>
    decreases entries.len(),
{
    if entries.len() == 0 {
        Seq::<u8>::empty()
    } else {
        process_lines_bytes(entries.drop_last()) + truncated(process_line_bytes(entries.last()))
    }
}

/// The whole report, as the concatenation of its chunks, each truncated to
/// what one bounded write can carry.
pub open spec fn report_bytes(r: FaultRecord) -> Seq<u8> {
    truncated(banner_bytes()) + truncated(cause_line_bytes(r.cause)) + truncated(
        address_line_bytes(r.address),
    ) + (match r.processes {
        None => truncated(no_table_bytes()),
        Some(v) => process_lines_bytes(v@),
    })
}

/// A serial transport that will accept a submission: present, idle, and
/// healthy.
pub open spec fn serial_ready(p: Peripherals) -> bool {
    p.transport matches Some(Transport::Serial(s)) && !s.busy && !s.broken
}

/// The bytes a serial transport has delivered so far.
pub open spec fn delivered_of(p: Peripherals) -> Seq<u8> {
    match p.transport {
        Some(Transport::Serial(s)) => s.delivered@,
        _ => Seq::<u8>::empty(),
    }
}

/// Whether the ring backend is configured.
pub open spec fn ring_backed(p: Peripherals) -> bool {
    p.transport matches Some(Transport::RingBuffer(_))
}

/// The ring backend's contents.
pub open spec fn ring_bytes_of(p: Peripherals) -> Seq<u8> {
    match p.transport {
        Some(Transport::RingBuffer(r)) => r.ring@,
        _ => Seq::<u8>::empty(),
    }
}

/// The ring backend's write position.
pub open spec fn ring_pos_of(p: Peripherals) -> int {
    match p.transport {
        Some(Transport::RingBuffer(r)) => r.write_position as int,
        _ => 0,
    }
}

/// The report's chunks in emission order: the three header lines, then
/// either the process rows or the line noting their absence.
pub open spec fn report_chunks(r: FaultRecord) -> Seq<Seq<u8>> {
    seq![banner_bytes(), cause_line_bytes(r.cause), address_line_bytes(r.address)] + (
    match r.processes {
        None => seq![no_table_bytes()],
        Some(v) => v@.map(|i: int, e: ProcessEntry| process_line_bytes(e)),
    })
}

/// Ring contents and write position after the chunks are written in order,
/// each truncated as one bounded write stages it.
pub open spec fn ring_after(ring: Seq<u8>, pos: int, chunks: Seq<Seq<u8>>) -> (Seq<u8>, int)
    decreases chunks.len(),
{
    if chunks.len() == 0 {
        (ring, pos)
    } else {
        ring_after(
            ring_write(ring, pos, truncated(chunks.first())),
            ring_advance(pos, truncated(chunks.first()).len() as int, ring.len() as int),
            chunks.drop_first(),
        )
    }
}

/// Append every byte of a slice to a vector.
#[verifier::loop_isolation(false)]
fn append_slice(out: &mut Vec<u8>, b: &[u8])
    ensures
        final(out)@ == old(out)@ + b@,
{
    let ghost pre = old(out)@;
    proof {
        assert(pre + b@.take(0) =~= pre);
    }
    let mut i: usize = 0;
    while i < b.len()
        invariant
            i <= b@.len(),
            out@ == pre + b@.take(i as int),
        decreases b@.len() - i,
    {
        out.push(b[i]);
        proof {
            assert(pre + b@.take(i + 1) =~= (pre + b@.take(i as int)).push(b@[i as int]));
        }
        i = i + 1;
    }
    proof {
        assert(b@.take(b@.len() as int) =~= b@);
    }
}

/// Append the bytes of a string literal.
fn append_str(out: &mut Vec<u8>, s: &str)
    ensures
        final(out)@ == old(out)@ + s.spec_bytes(),
{
    append_slice(out, s.as_bytes());
}

/// One hexadecimal digit, lower case.
fn hex_digit(d: u8) -> (b: u8)
    requires
        d < 16,
    ensures
        b == spec_hex_digit(d),
{
    if d < 10 {
        48 + d
    } else {
        87 + d
    }
}

/// The sixteenth power for one digit position.
fn pow16_val(k: u32) -> (d: u32)
    requires
        k < 8,
    ensures
        d == pow16(k as int),
{
    if k == 0 {
        1
    } else if k == 1 {
        16
    } else if k == 2 {
        256
    } else if k == 3 {
        4096
    } else if k == 4 {
        65536
    } else if k == 5 {
        1048576
    } else if k == 6 {
        16777216
    } else {
        268435456
    }
}

/// Append the eight hexadecimal digits of an address.
#[verifier::loop_isolation(false)]
fn append_hex(out: &mut Vec<u8>, a: u32)
    ensures
        final(out)@ == old(out)@ + hex_bytes(a),
{
    let ghost pre = old(out)@;
    proof {
        assert(pre + hex_bytes(a).take(0) =~= pre);
    }
    let mut i: usize = 0;
    while i < 8
        invariant
            i <= 8,
            out@ == pre + hex_bytes(a).take(i as int),
        decreases 8 - i,
    {
        let p = pow16_val(7 - (i as u32));
        let d = ((a / p) % 16) as u8;
        out.push(hex_digit(d));
        proof {
            assert(hex_bytes(a)[i as int] == spec_hex_digit(d));
            assert(pre + hex_bytes(a).take(i + 1) =~= (pre + hex_bytes(a).take(i as int)).push(
                hex_bytes(a)[i as int],
            ));
        }
        i = i + 1;
    }
    proof {
        assert(hex_bytes(a).take(8) =~= hex_bytes(a));
    }
}

/// Append the decimal digits of a number.
fn append_dec(out: &mut Vec<u8>, n: u32)
    ensures
        final(out)@ == old(out)@ + dec_bytes(n as nat),
    decreases n,
{
    if n < 10 {
        out.push(48 + (n as u8));
        proof {
            assert(old(out)@ + dec_bytes(n as nat) =~= old(out)@.push((48 + n) as u8));
        }
    } else {
        append_dec(out, n / 10);
        out.push(48 + ((n % 10) as u8));
        proof {
            assert(old(out)@ + dec_bytes(n as nat) =~= (old(out)@ + dec_bytes(
                (n / 10) as nat,
            )).push((48 + n % 10) as u8));
        }
    }
}

/// Text for one fault cause.
fn cause_name(c: FaultCause) -> (s: &'static str)
    ensures
        s.spec_bytes() == cause_name_bytes(c),
{
    match c {
        FaultCause::KernelPanic => "kernel panic",
        FaultCause::HardFault => "hard fault",
        FaultCause::MemoryFault => "memory fault",
    }
}

/// Text for one process state.
fn state_name(s: ProcessState) -> (t: &'static str)
    ensures
        t.spec_bytes() == state_name_bytes(s),
{
    match s {
        ProcessState::Running => "running",
        ProcessState::Yielded => "yielded",
        ProcessState::Faulted => "faulted",
        ProcessState::Stopped => "stopped",
    }
}

/// Hand one rendered chunk to the adapter.  On a ready serial transport
/// the chunk, truncated to the buffer capacity, is appended to what the
/// transport has delivered, and the transport is ready again afterwards.
fn emit(adapter: &mut TransportAdapter, port: &mut Peripherals, line: &Vec<u8>)
    requires
        old(adapter).at_rest(),
        old(port).wf(),
    ensures
        final(adapter).at_rest(),
        final(port).wf(),
        final(port).target_line == old(port).target_line,
        final(port).activity.ready == old(port).activity.ready,
        final(port).failure.ready == old(port).failure.ready,
        forall|l: u32|
            old(port).controller.enabled@.contains(l)
                ==> final(port).controller.enabled@.contains(l),
        forall|l: u32|
            final(port).controller.enabled@.contains(l)
                ==> old(port).controller.enabled@.contains(l)
                || old(port).controller.pending@.contains(l)
                || l == old(port).target_line,
        forall|l: u32|
            final(port).controller.pending@.contains(l)
                ==> old(port).controller.pending@.contains(l)
                || l == old(port).target_line,
        serial_ready(*old(port)) ==> serial_ready(*final(port)) && delivered_of(*final(port))
            == delivered_of(*old(port)) + truncated(line@),
        ring_backed(*old(port)) ==> ring_backed(*final(port)) && ring_bytes_of(*final(port))
            == ring_write(ring_bytes_of(*old(port)), ring_pos_of(*old(port)), truncated(line@))
            && ring_pos_of(*final(port)) == ring_advance(
            ring_pos_of(*old(port)),
            truncated(line@).len() as int,
            ring_bytes_of(*old(port)).len() as int,
        ),
{
    let _ = adapter.write(port, line.as_slice());
    proof {
        if line@.len() == 0 {
            assert(truncated(line@) =~= Seq::<u8>::empty());
            assert(delivered_of(*old(port)) + truncated(line@) =~= delivered_of(*old(port)));
        }
    }
}

/// Render the fault record and feed it to the adapter, one line per
/// bounded write.  On a ready serial transport the full report -- banner,
/// cause, address, then the process table or its absence -- is delivered.
#[verifier::loop_isolation(false)]
#[verifier::rlimit(60)]
pub fn report(adapter: &mut TransportAdapter, port: &mut Peripherals, record: &FaultRecord)
    requires
        old(adapter).at_rest(),
        old(port).wf(),
    ensures
        final(adapter).at_rest(),
        final(port).wf(),
        final(port).target_line == old(port).target_line,
        final(port).activity.ready == old(port).activity.ready,
        final(port).failure.ready == old(port).failure.ready,
        forall|l: u32|
            old(port).controller.enabled@.contains(l)
                ==> final(port).controller.enabled@.contains(l),
        forall|l: u32|
            final(port).controller.enabled@.contains(l)
                ==> old(port).controller.enabled@.contains(l)
                || old(port).controller.pending@.contains(l)
                || l == old(port).target_line,
        forall|l: u32|
            final(port).controller.pending@.contains(l)
                ==> old(port).controller.pending@.contains(l)
                || l == old(port).target_line,
        serial_ready(*old(port)) ==> serial_ready(*final(port)) && delivered_of(*final(port))
            == delivered_of(*old(port)) + report_bytes(*record),
        ring_backed(*old(port)) ==> ring_backed(*final(port)) && (
        ring_bytes_of(*final(port)),
        ring_pos_of(*final(port)),
        ) == ring_after(
            ring_bytes_of(*old(port)),
            ring_pos_of(*old(port)),
            report_chunks(*record),
        ),
{
    let ghost d0 = delivered_of(*old(port));
    let ghost chunks = report_chunks(*record);
    let ghost ring0 = ring_bytes_of(*old(port));
    let ghost pos0 = ring_pos_of(*old(port));
    proof {
        assert(chunks.skip(0) =~= chunks);
    }
    let mut line: Vec<u8> = Vec::new();
    append_str(&mut line, "kernel fault\r\n");
    emit(adapter, port, &line);
    proof {
        if ring_backed(*old(port)) {
            assert(chunks.skip(0).first() == banner_bytes());
            assert(chunks.skip(0).drop_first() =~= chunks.skip(1));
            assert(ring_after(ring_bytes_of(*port), ring_pos_of(*port), chunks.skip(1))
                == ring_after(ring0, pos0, chunks));
        }
    }

    let mut line: Vec<u8> = Vec::new();
    append_str(&mut line, "cause: ");
    append_str(&mut line, cause_name(record.cause));
    append_str(&mut line, "\r\n");
    emit(adapter, port, &line);
    proof {
        if ring_backed(*old(port)) {
            assert(chunks.skip(1).first() == cause_line_bytes(record.cause));
            assert(chunks.skip(1).drop_first() =~= chunks.skip(2));
            assert(ring_after(ring_bytes_of(*port), ring_pos_of(*port), chunks.skip(2))
                == ring_after(ring0, pos0, chunks));
        }
    }

    let mut line: Vec<u8> = Vec::new();
    append_str(&mut line, "at address 0x");
    append_hex(&mut line, record.address);
    append_str(&mut line, "\r\n");
    emit(adapter, port, &line);
    proof {
        if ring_backed(*old(port)) {
            assert(chunks.skip(2).first() == address_line_bytes(record.address));
            assert(chunks.skip(2).drop_first() =~= chunks.skip(3));
            assert(ring_after(ring_bytes_of(*port), ring_pos_of(*port), chunks.skip(3))
                == ring_after(ring0, pos0, chunks));
        }
    }

    let ghost head = truncated(banner_bytes()) + truncated(cause_line_bytes(record.cause))
        + truncated(address_line_bytes(record.address));

    match &record.processes {
        None => {
            let mut line: Vec<u8> = Vec::new();
            append_str(&mut line, "no process table\r\n");
            emit(adapter, port, &line);
            proof {
                if serial_ready(*old(port)) {
                    assert(delivered_of(*port) =~= d0 + report_bytes(*record));
                }
                if ring_backed(*old(port)) {
                    assert(chunks.skip(3).first() == no_table_bytes());
                    assert(chunks.skip(3).drop_first() =~= chunks.skip(4));
                    assert(chunks.skip(4) =~= Seq::<Seq<u8>>::empty());
                    assert(ring_after(ring_bytes_of(*port), ring_pos_of(*port), chunks.skip(4))
                        == ring_after(ring0, pos0, chunks));
                }
            }
        },
        Some(list) => {
            let mut i: usize = 0;
            while i < list.len()
                invariant
                    i <= list@.len(),
                    adapter.at_rest(),
                    port.wf(),
                    port.target_line == old(port).target_line,
                    port.activity.ready == old(port).activity.ready,
                    port.failure.ready == old(port).failure.ready,
                    forall|l: u32|
                        old(port).controller.enabled@.contains(l)
                            ==> port.controller.enabled@.contains(l),
                    forall|l: u32|
                        port.controller.enabled@.contains(l)
                            ==> old(port).controller.enabled@.contains(l)
                            || old(port).controller.pending@.contains(l)
                            || l == old(port).target_line,
                    forall|l: u32|
                        port.controller.pending@.contains(l)
                            ==> old(port).controller.pending@.contains(l)
                            || l == old(port).target_line,
                    serial_ready(*old(port)) ==> serial_ready(*port) && delivered_of(*port) == d0
                        + head + process_lines_bytes(list@.take(i as int)),
                    ring_backed(*old(port)) ==> ring_backed(*port) && ring_after(
                        ring_bytes_of(*port),
                        ring_pos_of(*port),
                        chunks.skip(3 + i),
                    ) == ring_after(ring0, pos0, chunks),
                decreases list@.len() - i,
            {
                let mut line: Vec<u8> = Vec::new();
                append_str(&mut line, "process ");
                append_dec(&mut line, list[i].id);
                append_str(&mut line, ": ");
                append_str(&mut line, state_name(list[i].state));
                append_str(&mut line, "\r\n");
                emit(adapter, port, &line);
                proof {
                    let pfx = list@.take(i + 1);
                    assert(pfx.drop_last() =~= list@.take(i as int));
                    assert(pfx.last() == list@[i as int]);
                    assert(line@ == process_line_bytes(list@[i as int]));
                    if ring_backed(*old(port)) {
                        assert(chunks.skip(3 + i).first() == chunks[3 + i]);
                        assert(chunks[3 + i] == process_line_bytes(list@[i as int]));
                        assert(chunks.skip(3 + i).drop_first() =~= chunks.skip(3 + i + 1));
                        assert(ring_after(
                            ring_bytes_of(*port),
                            ring_pos_of(*port),
                            chunks.skip(3 + i + 1),
                        ) == ring_after(ring0, pos0, chunks));
                    }
                }
                i = i + 1;
            }
            proof {
                assert(list@.take(list@.len() as int) =~= list@);
                if ring_backed(*old(port)) {
                    assert(chunks.skip(3 + list@.len() as int) =~= Seq::<Seq<u8>>::empty());
                }
            }
        },
    }
}

} // verus!
