use vstd::prelude::*;

verus! {

/// What a progress poller does after reading the finished-pixel counter.
#[derive(Clone, Copy, Debug, PartialEq, Eq, Structural)]
pub enum PollAction {
    /// Show this many finished pixels and poll again later.
    Show(u64),
    /// Every pixel is done: show the total and stop polling.
    Finish(u64),
}

/// The poller's step for `done` finished pixels out of `total`. The shown
/// position never exceeds the total.
pub fn poll_step(done: u64, total: u64) -> (r: PollAction)
    ensures
        done >= total ==> r == PollAction::Finish(total),
        done < total ==> r == PollAction::Show(done),
{
    if done >= total {
        PollAction::Finish(total)
    } else {
        PollAction::Show(done)
    }
}

} // verus!
