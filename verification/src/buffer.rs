//! The bounded diagnostic buffer: a fixed-capacity byte buffer, allocated
//! once and owned by the transport adapter, into which each write stages a
//! (possibly truncated) copy of its input before submission.

use vstd::prelude::*;

verus! {

/// Capacity of the diagnostic buffer in bytes.
pub const BUFFER_CAPACITY: usize = 512;

/// How many bytes of an input of length `len` a write stages: everything,
/// truncated to the buffer capacity.
pub open spec fn effective_len(len: int) -> int {
    if len < BUFFER_CAPACITY as int {
        len
    } else {
        BUFFER_CAPACITY as int
    }
}

/// The staged copy of an input: its prefix of the effective length.
pub open spec fn staged_bytes(data: Seq<u8>) -> Seq<u8> {
    data.take(effective_len(data.len() as int))
}

/// The fixed-capacity staging buffer.
pub struct DiagnosticBuffer {
    /// Backing storage; always exactly `BUFFER_CAPACITY` bytes long.
    pub bytes: Vec<u8>,
}

impl DiagnosticBuffer {
    /// The storage never grows or shrinks.
    pub open spec fn wf(self) -> bool {
        self.bytes@.len() == BUFFER_CAPACITY as int
    }

    /// A zeroed buffer.
    pub fn new() -> (b: Self)
        ensures
            b.wf(),
            b.bytes@ == Seq::new(BUFFER_CAPACITY as nat, |i: int| 0u8),
    {
        let mut bytes: Vec<u8> = Vec::new();
        let mut i: usize = 0;
        while i < BUFFER_CAPACITY
            invariant
                i <= BUFFER_CAPACITY,
                bytes@ == Seq::new(i as nat, |j: int| 0u8),
            decreases BUFFER_CAPACITY - i,
        {
            bytes.push(0u8);
            proof {
                assert(Seq::new((i + 1) as nat, |j: int| 0u8) =~= Seq::new(
                    i as nat,
                    |j: int| 0u8,
                ).push(0u8));
            }
            i = i + 1;
        }
        DiagnosticBuffer { bytes }
    }

    /// Copy `min(data.len(), BUFFER_CAPACITY)` bytes of `data` into the
    /// front of the buffer -- longer inputs are silently truncated -- and
    /// report how many bytes were staged.
    #[verifier::loop_isolation(false)]
    pub fn stage(&mut self, data: &[u8]) -> (n: usize)
        requires
            old(self).wf(),
        ensures
            final(self).wf(),
            n == effective_len(data@.len() as int),
            final(self).bytes@ == staged_bytes(data@) + old(self).bytes@.skip(n as int),
    {
        let n = if data.len() < BUFFER_CAPACITY {
            data.len()
        } else {
            BUFFER_CAPACITY
        };
        let ghost pre = self.bytes@;
        proof {
            assert(data@.take(0) + pre.skip(0) =~= pre);
        }
        let mut i: usize = 0;
        while i < n
            invariant
                i <= n,
                n == effective_len(data@.len() as int),
                n <= data@.len(),
                self.bytes@.len() == BUFFER_CAPACITY as int,
                self.bytes@ == data@.take(i as int) + pre.skip(i as int),
            decreases n - i,
        {
            self.bytes[i] = data[i];
            proof {
                assert(self.bytes@ =~= data@.take(i + 1) + pre.skip(i + 1));
            }
            i = i + 1;
        }
        proof {
            assert(data@.take(n as int) == staged_bytes(data@));
        }
        n
    }
}

} // verus!
