use vstd::prelude::*;

verus! {

/// What to do after checking whether a condition holds.
#[derive(Debug, Clone, Copy, PartialEq, Eq, Structural)]
pub enum WaitAction {
    /// The condition holds.
    Ready,
    /// Wait `ms` milliseconds; then check again unless the time allowed has run out.
    Delay { ms: u32 },
}

/// Polls a condition at a fixed interval and gives up after a bounded number of waits.
///
/// Each failed check is followed by one wait; once all waits are spent the time is
/// out and the condition is not checked again. So it succeeds only when the
/// condition holds at one of the first `max_waits` checks.
pub struct ReadyWait {
    waited: u32,
    max_waits: u32,
    poll_ms: u32,
}

impl ReadyWait {
    pub closed spec fn waited(&self) -> int {
        self.waited as int
    }

    pub closed spec fn max_waits(&self) -> int {
        self.max_waits as int
    }

    pub closed spec fn poll_ms(&self) -> int {
        self.poll_ms as int
    }

    pub open spec fn wf(&self) -> bool {
        self.waited() <= self.max_waits()
    }

    /// Polls every 10 ms for at most 10 s: the wait for a network link or a clock sync.
    pub fn link() -> (r: Self)
        ensures
            r.wf(),
            r.waited() == 0,
            r.poll_ms() == 10,
            r.max_waits() == 1000,
    {
        ReadyWait { waited: 0, max_waits: 1000, poll_ms: 10 }
    }

    /// Milliseconds spent waiting so far.
    pub fn elapsed_ms(&self) -> (r: u64)
        ensures
            r == self.waited() * self.poll_ms(),
    {
        proof {
            assert(self.waited() * self.poll_ms() <= 0xffff_ffff * 0xffff_ffff) by (nonlinear_arith)
                requires
                    0 <= self.waited() <= 0xffff_ffff,
                    0 <= self.poll_ms() <= 0xffff_ffff,
            ;
        }
        (self.waited as u64) * (self.poll_ms as u64)
    }

    /// Whether all waits are spent: the time allowed has run out and no further
    /// check is made.
    pub fn timed_out(&self) -> (r: bool)
        ensures
            r == (self.waited() >= self.max_waits()),
    {
        self.waited >= self.max_waits
    }

    /// Decides what follows a check, made while time remains, whose answer was
    /// `ready`: stop when it holds, else wait once more.
    pub fn check(&mut self, ready: bool) -> (r: WaitAction)
        requires
            old(self).waited() < old(self).max_waits(),
        ensures
            final(self).wf(),
            final(self).max_waits() == old(self).max_waits(),
            final(self).poll_ms() == old(self).poll_ms(),
            ready ==> r == WaitAction::Ready && final(self).waited() == old(self).waited(),
            !ready ==> r == (WaitAction::Delay { ms: old(self).poll_ms() as u32 })
                && final(self).waited() == old(self).waited() + 1,
    {
        if ready {
            WaitAction::Ready
        } else {
            self.waited = self.waited + 1;
            WaitAction::Delay { ms: self.poll_ms }
        }
    }
}

} // verus!
