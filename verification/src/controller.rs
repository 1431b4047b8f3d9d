//! Model of the interrupt controller as the fault path sees it: the set of
//! pending lines (oldest observation first), the set of enabled lines, and
//! a count of how often the pump has polled for a pending interrupt.

use vstd::prelude::*;

verus! {

/// Saturating successor, used for the model's event counters.
pub open spec fn next_count(n: u64) -> u64 {
    if n == u64::MAX {
        n
    } else {
        (n + 1) as u64
    }
}

/// Interrupt controller state.  A line is pending until it is explicitly
/// cleared, whether or not it is enabled; `next_pending` reports the oldest
/// pending line.
pub struct InterruptController {
    /// Pending lines, oldest first; no line appears twice.
    pub pending: Vec<u32>,
    /// Enabled lines; no line appears twice.
    pub enabled: Vec<u32>,
    /// How many times `next_pending` has been consulted.
    pub polls: u64,
}

impl InterruptController {
    /// A line is pending at most once, and enabled at most once.
    pub open spec fn wf(self) -> bool {
        self.pending@.no_duplicates() && self.enabled@.no_duplicates()
    }

    /// A controller with nothing pending, nothing enabled.
    pub fn new() -> (c: Self)
        ensures
            c.wf(),
            c.pending@ == Seq::<u32>::empty(),
            c.enabled@ == Seq::<u32>::empty(),
            c.polls == 0,
    {
        InterruptController { pending: Vec::new(), enabled: Vec::new(), polls: 0 }
    }

    /// Hardware side: a device raises its line.  A line already pending
    /// stays pending exactly once.
    pub fn raise(&mut self, line: u32)
        requires
            old(self).wf(),
        ensures
            final(self).wf(),
            final(self).pending@ == if old(self).pending@.contains(line) {
                old(self).pending@
            } else {
                old(self).pending@.push(line)
            },
            final(self).enabled == old(self).enabled,
            final(self).polls == old(self).polls,
    {
        if !contains_line(&self.pending, line) {
            self.pending.push(line);
        }
    }

    /// Report the oldest pending line, if any, and count the poll.
    pub fn next_pending(&mut self) -> (r: Option<u32>)
        ensures
            final(self).pending == old(self).pending,
            final(self).enabled == old(self).enabled,
            final(self).polls == next_count(old(self).polls),
            r == if old(self).pending@.len() == 0 {
                None::<u32>
            } else {
                Some(old(self).pending@[0])
            },
    {
        if self.polls < u64::MAX {
            self.polls = self.polls + 1;
        }
        if self.pending.len() == 0 {
            None
        } else {
            Some(self.pending[0])
        }
    }

    /// Clear one line's pending flag; every other line keeps its state.
    pub fn clear_pending(&mut self, line: u32)
        requires
            old(self).wf(),
        ensures
            final(self).wf(),
            !final(self).pending@.contains(line),
            forall|l: u32|
                l != line ==> final(self).pending@.contains(l) == old(self).pending@.contains(l),
            old(self).pending@.contains(line) ==> final(self).pending@.len() == old(
                self,
            ).pending@.len() - 1,
            !old(self).pending@.contains(line) ==> final(self).pending == old(self).pending,
            final(self).enabled == old(self).enabled,
            final(self).polls == old(self).polls,
    {
        match index_of_line(&self.pending, line) {
            Some(i) => {
                self.pending.remove(i);
                proof {
                    lemma_remove_keeps_others(old(self).pending@, i as int);
                }
            },
            None => {},
        }
    }

    /// Enable one line; every other line keeps its state.
    pub fn enable(&mut self, line: u32)
        requires
            old(self).wf(),
        ensures
            final(self).wf(),
            final(self).enabled@.contains(line),
            forall|l: u32|
                l != line ==> final(self).enabled@.contains(l) == old(self).enabled@.contains(l),
            final(self).pending == old(self).pending,
            final(self).polls == old(self).polls,
    {
        if !contains_line(&self.enabled, line) {
            self.enabled.push(line);
            proof {
                lemma_push_new(old(self).enabled@, line);
            }
        }
    }

    /// Disable every line.
    pub fn disable_all(&mut self)
        ensures
            final(self).wf() == old(self).pending@.no_duplicates(),
            final(self).enabled@ == Seq::<u32>::empty(),
            final(self).pending == old(self).pending,
            final(self).polls == old(self).polls,
    {
        self.enabled.clear();
    }

    /// Clear every pending flag.
    pub fn clear_all_pending(&mut self)
        ensures
            final(self).wf() == old(self).enabled@.no_duplicates(),
            final(self).pending@ == Seq::<u32>::empty(),
            final(self).enabled == old(self).enabled,
            final(self).polls == old(self).polls,
    {
        self.pending.clear();
    }

    /// Processor wait-for-interrupt: in this model no state changes; the
    /// pump simply polls again once it resumes.
    pub fn wait_for_interrupt(&mut self)
        ensures
            *final(self) == *old(self),
    {
    }

    /// Whether a line is currently pending.
    pub fn is_pending(&self, line: u32) -> (b: bool)
        ensures
            b == self.pending@.contains(line),
    {
        contains_line(&self.pending, line)
    }

    /// Whether a line is currently enabled.
    pub fn is_enabled(&self, line: u32) -> (b: bool)
        ensures
            b == self.enabled@.contains(line),
    {
        contains_line(&self.enabled, line)
    }
}

/// Linear scan for a line number.
fn contains_line(lines: &Vec<u32>, line: u32) -> (b: bool)
    ensures
        b == lines@.contains(line),
{
    let mut i: usize = 0;
    while i < lines.len()
        invariant
            i <= lines@.len(),
            forall|j: int| 0 <= j < i ==> lines@[j] != line,
        decreases lines@.len() - i,
    {
        if lines[i] == line {
            return true;
        }
        i = i + 1;
    }
    false
}

/// Index of the first occurrence of a line number.
fn index_of_line(lines: &Vec<u32>, line: u32) -> (r: Option<usize>)
    ensures
        r is None ==> !lines@.contains(line),
        r matches Some(i) ==> i < lines@.len() && lines@[i as int] == line,
    {
    let mut i: usize = 0;
    while i < lines.len()
        invariant
            i <= lines@.len(),
            forall|j: int| 0 <= j < i ==> lines@[j] != line,
        decreases lines@.len() - i,
    {
        if lines[i] == line {
            return Some(i);
        }
        i = i + 1;
    }
    None
}

/// Appending a value that a duplicate-free sequence lacks keeps it
/// duplicate-free, adds that value, and keeps every other value.
proof fn lemma_push_new(s: Seq<u32>, x: u32)
    requires
        s.no_duplicates(),
        !s.contains(x),
    ensures
        s.push(x).no_duplicates(),
        s.push(x).contains(x),
        forall|l: u32| l != x ==> s.push(x).contains(l) == s.contains(l),
{
    let t = s.push(x);
    assert(t[s.len() as int] == x);
    assert forall|l: u32| l != x implies t.contains(l) == s.contains(l) by {
        if s.contains(l) {
            let j = choose|j: int| 0 <= j < s.len() && s[j] == l;
            assert(t[j] == l);
        }
        if t.contains(l) {
            let j = choose|j: int| 0 <= j < t.len() && t[j] == l;
            assert(j < s.len());
            assert(s[j] == l);
        }
    }
}

/// Removing position `i` from a duplicate-free sequence keeps it
/// duplicate-free, drops the removed value, and keeps every other value.
proof fn lemma_remove_keeps_others(s: Seq<u32>, i: int)
    requires
        s.no_duplicates(),
        0 <= i < s.len(),
    ensures
        s.remove(i).no_duplicates(),
        !s.remove(i).contains(s[i]),
        forall|l: u32| l != s[i] ==> s.remove(i).contains(l) == s.contains(l),
{
    let t = s.remove(i);
    assert forall|j: int, k: int| 0 <= j < t.len() && 0 <= k < t.len() && j != k implies t[j]
        != t[k] by {
        let j0 = if j < i {
            j
        } else {
            j + 1
        };
        let k0 = if k < i {
            k
        } else {
            k + 1
        };
        assert(t[j] == s[j0]);
        assert(t[k] == s[k0]);
    }
    assert forall|j: int| 0 <= j < t.len() implies t[j] != s[i] by {
        let j0 = if j < i {
            j
        } else {
            j + 1
        };
        assert(t[j] == s[j0]);
    }
    assert forall|l: u32| l != s[i] implies t.contains(l) == s.contains(l) by {
        if s.contains(l) {
            let j0 = choose|j0: int| 0 <= j0 < s.len() && s[j0] == l;
            if j0 < i {
                assert(t[j0] == l);
            } else {
                assert(t[j0 - 1] == l);
            }
        }
        if t.contains(l) {
            let j = choose|j: int| 0 <= j < t.len() && t[j] == l;
            let j0 = if j < i {
                j
            } else {
                j + 1
            };
            assert(s[j0] == l);
        }
    }
}

} // verus!
