//! The hardware collaborators the fault path drives, bundled as one value:
//! interrupt controller, the optional transport, its fixed interrupt line,
//! and the two binary fault indicators.

use vstd::prelude::*;

use crate::controller::InterruptController;
use crate::transport::Transport;

verus! {

/// A binary fault indicator output (for example an LED): it can be
/// initialized, lit, and turned off.
pub struct Indicator {
    /// The output was initialized.
    pub ready: bool,
    /// The output is currently driven on.
    pub lit: bool,
}

impl Indicator {
    /// An untouched output.
    pub fn new() -> (ind: Self)
        ensures
            !ind.ready,
            !ind.lit,
    {
        Indicator { ready: false, lit: false }
    }

    /// Configure the output.
    pub fn init(&mut self)
        ensures
            final(self).ready,
            final(self).lit == old(self).lit,
    {
        self.ready = true;
    }

    /// Drive the output on.
    pub fn on(&mut self)
        ensures
            final(self).lit,
            final(self).ready == old(self).ready,
    {
        self.lit = true;
    }

    /// Drive the output off.
    pub fn off(&mut self)
        ensures
            !final(self).lit,
            final(self).ready == old(self).ready,
    {
        self.lit = false;
    }
}

/// Everything outside the adapter that the fault path touches.  The
/// transport is `None` when the fault happened before device bring-up; the
/// target line is fixed configuration whether or not the transport exists.
pub struct Peripherals {
    /// The interrupt controller.
    pub controller: InterruptController,
    /// The transport, if it was ever initialized.
    pub transport: Option<Transport>,
    /// The interrupt line assigned to the transport device.
    pub target_line: u32,
    /// Indicator showing that a transmission is in flight.
    pub activity: Indicator,
    /// Indicator showing that a submission was rejected.
    pub failure: Indicator,
}

impl Peripherals {
    /// Controller and transport are each well-formed.
    pub open spec fn wf(self) -> bool {
        &&& self.controller.wf()
        &&& (self.transport matches Some(t) ==> t.wf())
    }

    /// Assemble the collaborators around a fresh controller and untouched
    /// indicators.
    pub fn new(transport: Option<Transport>, target_line: u32) -> (p: Self)
        requires
            (transport matches Some(t) ==> t.wf()),
        ensures
            p.wf(),
            p.transport == transport,
            p.target_line == target_line,
            p.controller.pending@ == Seq::<u32>::empty(),
            p.controller.enabled@ == Seq::<u32>::empty(),
            p.controller.polls == 0,
            !p.activity.lit && !p.failure.lit,
    {
        Peripherals {
            controller: InterruptController::new(),
            transport,
            target_line,
            activity: Indicator::new(),
            failure: Indicator::new(),
        }
    }
}

} // verus!
