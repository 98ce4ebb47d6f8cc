use vstd::prelude::*;

verus! {

/// What a progress display shows: bytes moved so far out of a total.
/// `restarts` counts the transfers begun on this reporter.
#[derive(Clone, Copy, Debug, PartialEq, Eq, Structural)]
pub struct ProgressState {
    pub position: u64,
    pub length: u64,
    pub restarts: u64,
}

impl ProgressState {
    /// A reporter for a transfer of `length` bytes that has not begun.
    pub fn new(length: u64) -> (r: ProgressState)
        ensures
            r.position == 0,
            r.length == length,
            r.restarts == 0,
    {
        ProgressState { position: 0, length, restarts: 0 }
    }

    /// Takes one `(transferred, total)` report. A report of zero bytes marks
    /// a new transfer: the elapsed-time baseline restarts and `total` is shown.
    /// Returns whether the baseline restarted.
    pub fn on_progress(&mut self, transferred: u64, total: u64) -> (restarted: bool)
        ensures
            restarted == (transferred == 0),
            final(self).position == transferred,
            transferred == 0 ==> final(self).length == total,
            transferred != 0 ==> final(self).length == old(self).length,
            transferred == 0 ==> final(self).restarts == if old(self).restarts < u64::MAX {
                (old(self).restarts + 1) as u64
            } else {
                u64::MAX
            },
            transferred != 0 ==> final(self).restarts == old(self).restarts,
    {
        let restarted = transferred == 0;
        if restarted {
            self.length = total;
            self.restarts = self.restarts.saturating_add(1);
        }
        self.position = transferred;
        restarted
    }

    /// Takes a report of bytes received across a whole bundle, whose total
    /// was fixed when the reporter was made.
    pub fn on_bundle_progress(&mut self, received: u64)
        ensures
            final(self).position == received,
            final(self).length == old(self).length,
            final(self).restarts == old(self).restarts,
    {
        self.position = received;
    }
}

} // verus!
