//! The completion signal: a one-bit flag plus the dummy client object that
//! sets it when the transport reports that a transmission finished.

use vstd::prelude::*;

verus! {

/// Errors the transport can report, either when a submission is rejected or
/// inside a completion callback.
#[derive(Clone, Copy, PartialEq, Eq, Structural, Debug)]
pub enum TransportError {
    /// The transport is already transmitting something else.
    Busy,
    /// The hardware refused the operation.
    HardwareFault,
}

/// The client object installed on the transport for the duration of fault
/// handling.  Its only job is to flip a one-bit flag when the transport
/// reports that the submitted transmission finished; the fault path polls
/// that flag instead of relying on the ordinary callback plumbing.
pub struct CompletionSignal {
    /// True exactly from the completion callback until the adapter resets it.
    pub fired: bool,
}

impl CompletionSignal {
    /// A fresh signal; the flag starts false.
    pub fn new() -> (s: Self)
        ensures
            !s.fired,
    {
        CompletionSignal { fired: false }
    }

    /// Transmit-completion callback: record that the transmission finished.
    /// The success/error outcome is deliberately ignored -- the fault path
    /// only needs to stop waiting, not to distinguish results.
    pub fn transmitted(&mut self, _transmitted_len: usize, _outcome: Result<(), TransportError>)
        ensures
            final(self).fired,
    {
        self.fired = true;
    }

    /// Receive-completion callback: deliberately a no-op, since the fault
    /// path is transmit-only.
    pub fn received(&mut self, _received_len: usize, _outcome: Result<(), TransportError>)
        ensures
            *final(self) == *old(self),
    {
    }

    /// Reset the flag so the next write can wait on it again.
    pub fn clear(&mut self)
        ensures
            !final(self).fired,
    {
        self.fired = false;
    }

    /// Poll the flag.
    pub fn is_set(&self) -> (b: bool)
        ensures
            b == self.fired,
    {
        self.fired
    }
}

} // verus!
