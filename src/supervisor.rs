use vstd::prelude::*;

verus! {

/// The slot after a child is offered: taken only when empty.
pub open spec fn slot_after_set<C>(slot: Option<C>, child: C) -> Option<C> {
    match slot {
        None => Some(child),
        Some(c) => Some(c),
    }
}

/// What a shutdown hands out for termination: the held child, if any.
pub open spec fn released_by_shutdown<C>(slot: Option<C>) -> Option<C> {
    slot
}

/// The slot after a shutdown: always empty.
pub open spec fn slot_after_shutdown<C>(slot: Option<C>) -> Option<C> {
    None
}

/// Tracks at most one started process. The lock that shares it between the
/// start-up path and the exit handler belongs to the caller.
pub struct ProcessManager<C> {
    child: Option<C>,
}

impl<C> ProcessManager<C> {
    /// The child currently held.
    pub closed spec fn held(&self) -> Option<C> {
        self.child
    }

    pub fn new() -> (m: ProcessManager<C>)
        ensures
            m.held() is None,
    {
        ProcessManager { child: None }
    }

    pub fn is_tracking(&self) -> (r: bool)
        ensures
            r == self.held() is Some,
    {
        self.child.is_some()
    }

    /// Starts tracking `child`. A second child is refused and handed back,
    /// so that it is never silently lost.
    pub fn set_child(&mut self, child: C) -> (r: Result<(), C>)
        ensures
            final(self).held() == slot_after_set(old(self).held(), child),
            old(self).held() is None ==> r is Ok,
            old(self).held() is Some ==> r == Err::<(), C>(child),
    {
        if self.child.is_some() {
            return Err(child);
        }
        self.child = Some(child);
        Ok(())
    }

    /// Removes the held child from the slot and returns it.
    pub fn take_child(&mut self) -> (r: Option<C>)
        ensures
            r == old(self).held(),
            final(self).held() is None,
    {
        self.child.take()
    }

    /// Ends tracking: returns the child that must now be terminated and
    /// waited for, if one was held. Further calls return `None`.
    pub fn shutdown(&mut self) -> (r: Option<C>)
        ensures
            r == released_by_shutdown(old(self).held()),
            final(self).held() == slot_after_shutdown(old(self).held()),
    {
        self.take_child()
    }
}

/// A shutdown with nothing held releases nothing and leaves the slot empty.
pub proof fn lemma_shutdown_without_child<C>()
    ensures
        released_by_shutdown::<C>(None) is None,
        slot_after_shutdown::<C>(None) is None,
{
}

/// After a child is set in an empty slot, a shutdown releases exactly that
/// child, and every later shutdown releases nothing.
pub proof fn lemma_shutdown_after_set<C>(child: C)
    ensures
        released_by_shutdown(slot_after_set(None, child)) == Some(child),
        released_by_shutdown(slot_after_shutdown(slot_after_set(None, child))) is None,
        slot_after_shutdown(slot_after_shutdown(slot_after_set(None, child))) is None,
{
}

/// Why a termination request failed.
#[derive(Debug, PartialEq, Eq, Structural, Clone, Copy)]
pub enum KillError {
    /// The process no longer exists: it already exited on its own.
    ProcessGone,
    /// Any other failure.
    Other,
}

/// How a termination request ended.
#[derive(Debug, PartialEq, Eq, Structural, Clone, Copy)]
pub enum TerminationOutcome {
    Terminated,
    AlreadyExited,
    Failed,
}

/// Tags the result of a termination request; a process that is already gone
/// is an expected outcome, not a failure.
pub fn termination_outcome(result: Result<(), KillError>) -> (r: TerminationOutcome)
    ensures
        result is Ok ==> r == TerminationOutcome::Terminated,
        result == Err::<(), KillError>(KillError::ProcessGone) ==> r
            == TerminationOutcome::AlreadyExited,
        result == Err::<(), KillError>(KillError::Other) ==> r == TerminationOutcome::Failed,
{
    match result {
        Ok(()) => TerminationOutcome::Terminated,
        Err(KillError::ProcessGone) => TerminationOutcome::AlreadyExited,
        Err(KillError::Other) => TerminationOutcome::Failed,
    }
}

} // verus!
