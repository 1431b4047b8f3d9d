//! The terminal fault handler: quiesce the interrupt controller, re-enable
//! only the transport's line, arm the fault indicators, and hand the fault
//! record to the reporter.  Invoked once per process lifetime; the caller
//! is expected to halt or reset after it returns, so any downstream
//! failure degrades silently rather than faulting again.

use vstd::prelude::*;

use crate::adapter::TransportAdapter;
use crate::board::Peripherals;
use crate::record::FaultRecord;
use crate::reporter::delivered_of;
use crate::reporter::report;
use crate::reporter::report_bytes;
use crate::reporter::report_chunks;
use crate::reporter::ring_after;
use crate::reporter::ring_backed;
use crate::reporter::ring_bytes_of;
use crate::reporter::ring_pos_of;
use crate::reporter::serial_ready;

verus! {

/// The one fault-handler context value, constructed at process start and
/// passed by reference into the entry point: the adapter with its static
/// buffer, and the hardware collaborators.
pub struct FaultContext {
    /// The transport adapter owning buffer, signal and write state.
    pub adapter: TransportAdapter,
    /// The hardware the fault path drives.
    pub port: Peripherals,
}

impl FaultContext {
    /// Everything at rest and well-formed.
    pub open spec fn wf(self) -> bool {
        self.adapter.at_rest() && self.port.wf()
    }

    /// Build the context around the given hardware.
    pub fn new(port: Peripherals) -> (ctx: Self)
        requires
            port.wf(),
        ensures
            ctx.wf(),
            ctx.port == port,
            ctx.adapter.staged_len == 0,
    {
        FaultContext { adapter: TransportAdapter::new(), port }
    }
}

/// The terminal entry point.  In order: disable every interrupt line,
/// clear every pending flag, re-enable exactly the transport's line,
/// initialize and turn off both fault indicators, then run the reporter.
/// On a ready serial transport the full report is delivered; in every
/// other case the path degrades silently.
pub fn handle_fault(ctx: &mut FaultContext, record: &FaultRecord)
    requires
        old(ctx).wf(),
    ensures
        final(ctx).wf(),
        final(ctx).port.activity.ready,
        final(ctx).port.failure.ready,
        final(ctx).port.target_line == old(ctx).port.target_line,
        // exactly the transport's line is enabled when the handler is done
        forall|l: u32|
            final(ctx).port.controller.enabled@.contains(l) <==> l == old(ctx).port.target_line,
        forall|l: u32|
            final(ctx).port.controller.pending@.contains(l) ==> l == old(ctx).port.target_line,
        serial_ready(old(ctx).port) ==> serial_ready(final(ctx).port) && delivered_of(
            final(ctx).port,
        ) == delivered_of(old(ctx).port) + report_bytes(*record),
        ring_backed(old(ctx).port) ==> ring_backed(final(ctx).port) && (
        ring_bytes_of(final(ctx).port),
        ring_pos_of(final(ctx).port),
        ) == ring_after(
            ring_bytes_of(old(ctx).port),
            ring_pos_of(old(ctx).port),
            report_chunks(*record),
        ),
{
    ctx.port.controller.disable_all();
    ctx.port.controller.clear_all_pending();
    let target = ctx.port.target_line;
    ctx.port.controller.enable(target);
    ctx.port.activity.init();
    ctx.port.activity.off();
    ctx.port.failure.init();
    ctx.port.failure.off();
    report(&mut ctx.adapter, &mut ctx.port, record);
}

} // verus!
