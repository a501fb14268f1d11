use vstd::prelude::*;

verus! {

/// The two signals shared between the control loop and whoever may wake it:
/// a one-shot `pending` flag, consumed by the wait that sees it, and a
/// persistent `stopping` flag that is never cleared once set.
pub struct WakeFlags {
    pub pending: bool,
    pub stopping: bool,
}

/// The flags after a wake was left.
pub open spec fn notified(w: WakeFlags) -> WakeFlags {
    WakeFlags { pending: true, stopping: w.stopping }
}

/// The flags after a stop was asked for.
pub open spec fn stopped(w: WakeFlags) -> WakeFlags {
    WakeFlags { pending: true, stopping: true }
}

/// Whether a wait that starts on `w` ends at once.
pub open spec fn wait_ends_early(w: WakeFlags) -> bool {
    w.pending
}

/// The flags after a wait started on `w` consumed any pending wake.
pub open spec fn consumed(w: WakeFlags) -> WakeFlags {
    WakeFlags { pending: false, stopping: w.stopping }
}

impl WakeFlags {
    /// No wake pending, not stopping.
    pub fn new() -> (r: WakeFlags)
        ensures
            !r.pending,
            !r.stopping,
    {
        WakeFlags { pending: false, stopping: false }
    }

    /// Leaves a wake for the next wait; the stop flag is untouched.
    pub fn notify(&mut self)
        ensures
            *final(self) == notified(*old(self)),
    {
        self.pending = true;
    }

    /// Asks the loop to end, and wakes it.
    pub fn stop(&mut self)
        ensures
            *final(self) == stopped(*old(self)),
    {
        self.stopping = true;
        self.pending = true;
    }

    /// Whether a stop was asked for.
    pub fn is_stopping(&self) -> (r: bool)
        ensures
            r == self.stopping,
    {
        self.stopping
    }

    /// Consumes a pending wake: returns whether one was there, and clears it.
    /// A wait ends early exactly when this returns `true`.
    pub fn take_pending(&mut self) -> (r: bool)
        ensures
            r == wait_ends_early(*old(self)),
            *final(self) == consumed(*old(self)),
    {
        let was = self.pending;
        self.pending = false;
        was
    }
}

/// A wake left while nobody waits is not lost: the next wait ends at once,
/// and having consumed it, the wait after that blocks again.
pub proof fn lemma_notify_not_lost(w: WakeFlags)
    ensures
        wait_ends_early(notified(w)),
        !wait_ends_early(consumed(notified(w))),
{
}

/// Once set, the stop flag stays set through any later notify, stop or wait.
pub proof fn lemma_stop_persists(w: WakeFlags)
    requires
        w.stopping,
    ensures
        notified(w).stopping,
        stopped(w).stopping,
        consumed(w).stopping,
{
}

/// A notify leaves the stop flag as it was.
pub proof fn lemma_notify_keeps_stop(w: WakeFlags)
    ensures
        notified(w).stopping == w.stopping,
{
}

} // verus!
