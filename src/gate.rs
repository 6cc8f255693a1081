//! The rollback gate: a boolean condition that holds waiters back until it turns true,
//! then releases all of them at once.
use vstd::prelude::*;

verus! {

/// Answer to a waiter that asks about the condition.
#[derive(Clone, Copy, Debug, PartialEq, Eq, Hash)]
pub enum FlagState {
    /// The condition holds; go on.
    True,
    /// The condition does not hold; the waiter is registered and will be released.
    False,
}

/// The condition and the waiters registered while it did not hold.
pub struct RollbackFlag {
    flag: bool,
    waiters: Vec<u64>,
}

impl RollbackFlag {
    pub closed spec fn flag_spec(&self) -> bool {
        self.flag
    }

    pub closed spec fn waiters_spec(&self) -> Seq<u64> {
        self.waiters@
    }

    /// Nobody waits while the condition holds.
    pub open spec fn wf(&self) -> bool {
        self.flag_spec() ==> self.waiters_spec().len() == 0
    }

    pub fn new() -> (r: RollbackFlag)
        ensures
            r.wf(),
            !r.flag_spec(),
            r.waiters_spec().len() == 0,
    {
        RollbackFlag { flag: false, waiters: Vec::new() }
    }

    pub fn get(&self) -> (r: bool)
        ensures
            r == self.flag_spec(),
    {
        self.flag
    }

    /// A waiter asks: it may go on at once, or it is registered for release.
    pub fn on_request(&mut self, waiter: u64) -> (r: FlagState)
        requires
            old(self).wf(),
        ensures
            final(self).wf(),
            final(self).flag_spec() == old(self).flag_spec(),
            old(self).flag_spec() ==> r == FlagState::True && final(self).waiters_spec()
                == old(self).waiters_spec(),
            !old(self).flag_spec() ==> r == FlagState::False && final(self).waiters_spec()
                == old(self).waiters_spec().push(waiter),
    {
        if self.flag {
            FlagState::True
        } else {
            self.waiters.push(waiter);
            FlagState::False
        }
    }

    /// Sets the condition. When it is set true, every registered waiter is handed back
    /// for release, each once, and none stays registered.
    pub fn on_command(&mut self, value: bool) -> (released: Vec<u64>)
        requires
            old(self).wf(),
        ensures
            final(self).wf(),
            final(self).flag_spec() == value,
            value ==> released@ == old(self).waiters_spec() && final(self).waiters_spec().len() == 0,
            !value ==> released@.len() == 0 && final(self).waiters_spec() == old(
                self,
            ).waiters_spec(),
    {
        self.flag = value;
        if value {
            let mut released: Vec<u64> = Vec::new();
            std::mem::swap(&mut released, &mut self.waiters);
            released
        } else {
            Vec::new()
        }
    }
}

} // verus!
