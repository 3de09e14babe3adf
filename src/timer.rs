//! The state of a timer future, shared between the task that awaits it and
//! the thread that fires it.
use vstd::prelude::*;

verus! {

/// std's task waker, carried through unopened: this module stores and hands
/// back wakers and never looks inside one.
#[verifier::external_type_specification]
#[verifier::external_body]
pub struct ExWaker(std::task::Waker);

/// Whether the timer has fired, and the waker of the task that last found it
/// still running.
pub struct TimerFuture {
    completed: bool,
    waker: Option<std::task::Waker>,
}

impl TimerFuture {
    /// The timer has fired.
    pub closed spec fn fired(&self) -> bool {
        self.completed
    }

    /// The waker to call when the timer fires.
    pub closed spec fn parked(&self) -> Option<std::task::Waker> {
        self.waker
    }

    /// A timer that has not fired, with no task waiting on it.
    pub fn new() -> (t: TimerFuture)
        ensures
            !t.fired(),
            t.parked() is None,
    {
        TimerFuture { completed: false, waker: None }
    }

    /// A poll by the task whose waker is `waker`: ready once the timer has
    /// fired; otherwise pending, and `waker` is kept to be called on firing.
    pub fn poll(&mut self, waker: std::task::Waker) -> (ready: bool)
        ensures
            ready == old(self).fired(),
            final(self).fired() == old(self).fired(),
            ready ==> final(self).parked() == old(self).parked(),
            !ready ==> final(self).parked() == Some(waker),
    {
        if self.completed {
            true
        } else {
            self.waker = Some(waker);
            false
        }
    }

    /// Marks the timer as fired; the parked waker, if any, stays in place
    /// for the caller to wake.
    pub fn fire(&mut self)
        ensures
            final(self).fired(),
            final(self).parked() == old(self).parked(),
    {
        self.completed = true;
    }

    pub fn is_completed(&self) -> (r: bool)
        ensures
            r == self.fired(),
    {
        self.completed
    }

    /// The waker of the task that last found the timer running.
    pub fn waker(&self) -> (w: Option<&std::task::Waker>)
        ensures
            w is Some <==> self.parked() is Some,
            w is Some ==> *w->0 == self.parked()->0,
    {
        self.waker.as_ref()
    }
}

} // verus!
