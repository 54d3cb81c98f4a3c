use vstd::prelude::*;

verus! {

/// Proof of having taken the board's register set. Only
/// `BringUpGuard::take` makes one.
#[derive(Debug)]
pub struct BringUpToken {
    private: (),
}

/// Hands out the register set once per process lifetime.
#[derive(Debug)]
pub struct BringUpGuard {
    taken: bool,
}

/// Whether a take from a guard in state `taken` succeeds.
pub open spec fn take_granted(taken: bool) -> bool {
    !taken
}

/// The state of a guard after a take from state `taken`, granted or not.
pub open spec fn after_take(taken: bool) -> bool {
    true
}

impl View for BringUpGuard {
    type V = bool;

    /// Whether the register set has been handed out.
    closed spec fn view(&self) -> bool {
        self.taken
    }
}

impl BringUpGuard {
    /// A guard that has handed out nothing yet.
    pub fn new() -> (r: BringUpGuard)
        ensures
            r@ == false,
    {
        BringUpGuard { taken: false }
    }

    /// Whether the register set has been handed out.
    pub fn is_taken(&self) -> (r: bool)
        ensures
            r == self@,
    {
        self.taken
    }

    /// The token, the first time; nothing on every later call.
    pub fn take(&mut self) -> (r: Option<BringUpToken>)
        ensures
            r.is_some() == take_granted(old(self)@),
            final(self)@ == after_take(old(self)@),
    {
        if self.taken {
            None
        } else {
            self.taken = true;
            Some(BringUpToken { private: () })
        }
    }
}

/// Bring-up happens at most once: whatever state a guard is in, after one
/// take a second take is refused.
pub proof fn lemma_second_take_refused(taken: bool)
    ensures
        !take_granted(after_take(taken)),
{
}

} // verus!
