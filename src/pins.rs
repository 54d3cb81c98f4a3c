use vstd::prelude::*;

verus! {

/// Number of lines in the microcontroller's first GPIO bank.
pub const NUM_PINS: u8 = 30;

/// What a claimed line is configured as.
#[derive(Clone, Copy, Debug, PartialEq, Eq, Structural)]
pub enum Role {
    /// Push-pull output, starting at the given level.
    PushPullOutput { initial_high: bool },
    /// Digital input with the internal pull-up enabled.
    PullUpInput,
    /// Digital input with the internal pull-down enabled.
    PullDownInput,
    /// Clock or data line of the serial bus.
    BusFunction,
    /// Output of a PWM channel.
    PwmOutput,
}

/// A line handed out to exactly one role.
#[derive(Clone, Copy, Debug, PartialEq, Eq, Structural)]
pub struct ClaimedPin {
    pub id: u8,
    pub role: Role,
}

/// The raw, role-less lines that have not been claimed yet.
pub struct PinBank {
    free: Vec<bool>,
}

impl View for PinBank {
    type V = Set<u8>;

    /// The identities that can still be claimed.
    closed spec fn view(&self) -> Set<u8> {
        Set::new(|i: u8| i < NUM_PINS && (i as int) < self.free@.len() && self.free@[i as int])
    }
}

impl PinBank {
    pub closed spec fn wf(&self) -> bool {
        self.free@.len() == NUM_PINS as int
    }

    /// Every line of the bank, none claimed.
    pub fn new() -> (r: PinBank)
        ensures
            r.wf(),
            r@ == Set::new(|i: u8| i < NUM_PINS),
    {
        let mut free: Vec<bool> = Vec::new();
        let mut i: u8 = 0;
        while i < NUM_PINS
            invariant
                i <= NUM_PINS,
                free@.len() == i as int,
                forall|k: int| 0 <= k < i ==> free@[k],
            decreases NUM_PINS - i,
        {
            free.push(true);
            i = i + 1;
        }
        let r = PinBank { free };
        assert(r@ =~= Set::new(|i: u8| i < NUM_PINS));
        r
    }

    /// Whether `id` can still be claimed.
    pub fn is_free(&self, id: u8) -> (r: bool)
        requires
            self.wf(),
        ensures
            r == self@.contains(id),
    {
        id < NUM_PINS && self.free[id as usize]
    }

    /// Takes line `id` out of the bank and gives it `role`; a line that is
    /// not in the bank (never there, or claimed before) is refused.
    pub fn claim(&mut self, id: u8, role: Role) -> (r: Option<ClaimedPin>)
        requires
            old(self).wf(),
        ensures
            final(self).wf(),
            old(self)@.contains(id) ==> r == Some(ClaimedPin { id, role })
                && final(self)@ == old(self)@.remove(id),
            !old(self)@.contains(id) ==> r.is_none() && final(self)@ == old(self)@,
    {
        if self.is_free(id) {
            self.free.set(id as usize, false);
            assert(self@ =~= old(self)@.remove(id));
            Some(ClaimedPin { id, role })
        } else {
            None
        }
    }
}

} // verus!
