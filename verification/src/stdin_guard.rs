use crate::mode::TerminalMode;
use vstd::prelude::*;

verus! {

/// The process-wide record of standard input's original mode. It is filled
/// by the first capture and never changes afterwards.
#[derive(Debug, Clone, Copy, PartialEq, Eq)]
pub struct OriginalStdin {
    pub attempted: bool,
    pub snapshot: Option<TerminalMode>,
}

/// The record after one capture that read `current` (`None`: the read
/// failed). The first writer wins.
pub open spec fn captured(guard: OriginalStdin, current: Option<TerminalMode>) -> OriginalStdin {
    if guard.attempted {
        guard
    } else {
        OriginalStdin { attempted: true, snapshot: current }
    }
}

/// The record after a run of captures, in order.
pub open spec fn captured_all(guard: OriginalStdin, reads: Seq<Option<TerminalMode>>)
    -> OriginalStdin
    decreases reads.len(),
{
    if reads.len() == 0 {
        guard
    } else {
        captured_all(captured(guard, reads[0]), reads.drop_first())
    }
}

impl OriginalStdin {
    /// A record that no capture has filled yet.
    pub fn new() -> (guard: OriginalStdin)
        ensures
            !guard.attempted,
            guard.snapshot is None,
    {
        OriginalStdin { attempted: false, snapshot: None }
    }

    /// Whether the one-time capture is still to be made.
    pub fn needs_capture(&self) -> (needed: bool)
        ensures
            needed == !self.attempted,
    {
        !self.attempted
    }

    /// Records the outcome of reading standard input's mode. Only the first
    /// call changes the record. The result says whether the exit hook has to
    /// be installed: on the first call, and only if a mode was read.
    pub fn capture(&mut self, current: Option<TerminalMode>) -> (install_hook: bool)
        ensures
            *final(self) == captured(*old(self), current),
            install_hook == (!old(self).attempted && current is Some),
    {
        if self.attempted {
            false
        } else {
            self.attempted = true;
            self.snapshot = current;
            current.is_some()
        }
    }

    /// The mode the exit hook re-applies to standard input: the captured
    /// snapshot, or nothing where no capture was made or it read nothing.
    pub fn restore_target(&self) -> (target: Option<TerminalMode>)
        ensures
            target == self.snapshot,
    {
        self.snapshot
    }
}

/// Once a capture has been made, no run of further captures changes the
/// record.
pub proof fn lemma_capture_is_final(guard: OriginalStdin, reads: Seq<Option<TerminalMode>>)
    requires
        guard.attempted,
    ensures
        captured_all(guard, reads) == guard,
    decreases reads.len(),
{
    if reads.len() > 0 {
        lemma_capture_is_final(guard, reads.drop_first());
    }
}

/// However many captures follow one another on a fresh record, the snapshot
/// is the one the first of them read.
pub proof fn lemma_captured_at_most_once(reads: Seq<Option<TerminalMode>>)
    requires
        reads.len() > 0,
    ensures
        captured_all(OriginalStdin { attempted: false, snapshot: None }, reads) == (OriginalStdin {
            attempted: true,
            snapshot: reads[0],
        }),
{
    let fresh = OriginalStdin { attempted: false, snapshot: None };
    lemma_capture_is_final(captured(fresh, reads[0]), reads.drop_first());
}

} // verus!
