//! Interrupting and resuming an element.
use vstd::prelude::*;

verus! {

/// What an element may be waiting for, and whether it is being flushed. An
/// element that is not started is flushing.
pub struct ClockWait<C> {
    pub clock_id: Option<C>,
    pub flushing: bool,
}

impl<C> Default for ClockWait<C> {
    fn default() -> (wait: ClockWait<C>)
        ensures
            wait.clock_id is None,
            wait.flushing,
    {
        ClockWait { clock_id: None, flushing: true }
    }
}

/// The wait that is given up when an element is interrupted.
pub open spec fn given_up<C>(wait: ClockWait<C>) -> Option<C> {
    wait.clock_id
}

/// An element after it has been interrupted.
pub open spec fn interrupted<C>(wait: ClockWait<C>) -> ClockWait<C> {
    ClockWait { clock_id: None, flushing: true }
}

/// An element after it has been allowed to wait again.
pub open spec fn resumed<C>(wait: ClockWait<C>) -> ClockWait<C> {
    ClockWait { flushing: false, ..wait }
}

impl<C> ClockWait<C> {
    /// Interrupts the element: starts flushing and gives up the pending wait,
    /// which the caller has to unschedule.
    pub fn unlock(&mut self) -> (pending: Option<C>)
        ensures
            pending == old(self).clock_id,
            pending == given_up(*old(self)),
            final(self).clock_id is None,
            final(self).flushing,
            *final(self) == interrupted(*old(self)),
    {
        let pending = self.clock_id.take();
        self.flushing = true;
        pending
    }

    /// Lets the element wait again.
    pub fn unlock_stop(&mut self)
        ensures
            final(self).clock_id == old(self).clock_id,
            !final(self).flushing,
            *final(self) == resumed(*old(self)),
    {
        self.flushing = false;
    }
}

/// However an element stands, interrupting it gives up its pending wait, so that
/// none is left, and sets it flushing, and does so once and for all; resuming it ends the flushing and
/// nothing else.
pub proof fn law_interrupting_and_resuming<C>(wait: ClockWait<C>)
    ensures
        given_up(wait) == wait.clock_id,
        given_up(interrupted(wait)) is None,
        interrupted(wait).clock_id is None && interrupted(wait).flushing,
        interrupted(interrupted(wait)) == interrupted(wait),
        !resumed(wait).flushing && resumed(wait).clock_id == wait.clock_id,
        resumed(resumed(wait)) == resumed(wait),
        interrupted(resumed(wait)) == interrupted(wait),
{
}

} // verus!
