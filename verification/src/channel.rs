//! The change-propagation channel: a one-shot-per-tick wake signal.
//!
//! There is a single logical channel per mounted application instance. The
//! producer side (`fire`, reached through a status cell's `do_react`) is a
//! fire-and-forget notification; multiple fires before the consumer drains
//! them coalesce into one wake-up, since the channel only conveys "recheck
//! the tree", not a count. The consumer side (`consume`) drains the pending
//! wake exactly once per detected change. After teardown (`disconnect`),
//! notifications are silently dropped: a late fire races with unmounting and
//! is not an error.

use vstd::prelude::*;

verus! {

/// The wake signal that tells the render scheduler that some component's
/// status changed. It carries no payload: the scheduler re-checks the whole
/// tree and relies on each component's dirty flags to know what changed.
pub struct WakeChannel {
    pending: bool,
    connected: bool,
}

impl WakeChannel {
    /// Whether a wake-up has been fired and not yet drained.
    pub closed spec fn is_pending(self) -> bool {
        self.pending
    }

    /// Whether the consumer side is still attached. Unmounting the
    /// application disconnects the channel.
    pub closed spec fn is_connected(self) -> bool {
        self.connected
    }

    /// The channel after one producer fire: a wake-up becomes pending while
    /// the consumer is attached; a fire on a disconnected channel is dropped.
    pub closed spec fn fired(self) -> WakeChannel {
        WakeChannel { pending: self.pending || self.connected, connected: self.connected }
    }

    /// The channel after the consumer drains it: no wake-up is pending.
    pub closed spec fn drained(self) -> WakeChannel {
        WakeChannel { pending: false, connected: self.connected }
    }

    /// The channel after teardown: disconnected, and nothing pending.
    pub closed spec fn shut(self) -> WakeChannel {
        WakeChannel { pending: false, connected: false }
    }

    /// Creates the channel for a freshly mounted application: connected,
    /// with no wake-up pending yet.
    pub fn new() -> (c: WakeChannel)
        ensures
            !c.is_pending(),
            c.is_connected(),
    {
        WakeChannel { pending: false, connected: true }
    }

    /// Fires a wake-up notification. Always succeeds from the caller's
    /// perspective: on a disconnected channel the notification is silently
    /// dropped rather than a fault.
    pub fn fire(&mut self)
        ensures
            *final(self) == old(self).fired(),
    {
        if self.connected {
            self.pending = true;
        }
    }

    /// Drains the channel from the consumer side: reports whether a wake-up
    /// was pending and clears it, so that the scheduler reacts exactly once
    /// per burst of fires.
    pub fn consume(&mut self) -> (r: bool)
        ensures
            r == old(self).is_pending(),
            *final(self) == old(self).drained(),
    {
        let r = self.pending;
        self.pending = false;
        r
    }

    /// Tears the channel down when the application is unmounted. Later fires
    /// are dropped and no drained wake-up remains.
    pub fn disconnect(&mut self)
        ensures
            *final(self) == old(self).shut(),
    {
        self.pending = false;
        self.connected = false;
    }
}

/// What a fire leaves observable: a wake-up is pending iff one already was
/// or the consumer is still attached, and the connection is untouched.
pub broadcast proof fn lemma_fired_projections(c: WakeChannel)
    ensures
        (#[trigger] c.fired()).is_pending() == (c.is_pending() || c.is_connected()),
        c.fired().is_connected() == c.is_connected(),
{
}

/// What a drain leaves observable: nothing pending, connection untouched.
pub broadcast proof fn lemma_drained_projections(c: WakeChannel)
    ensures
        !(#[trigger] c.drained()).is_pending(),
        c.drained().is_connected() == c.is_connected(),
{
}

/// What teardown leaves observable: disconnected, nothing pending.
pub broadcast proof fn lemma_shut_projections(c: WakeChannel)
    ensures
        !(#[trigger] c.shut()).is_pending(),
        !c.shut().is_connected(),
{
}

/// Law: wake-ups coalesce. Firing a second time before the consumer drains
/// the channel leaves the channel exactly as one fire would, so a burst of
/// fires produces at most one consumer invocation.
pub proof fn lemma_fire_coalesces(c: WakeChannel)
    ensures
        c.fired().fired() == c.fired(),
{
}

/// Law: a drain observes a burst of fires exactly once. On a connected
/// channel a fire leaves a wake-up pending, and the drain that consumes it
/// leaves none, so an immediate second drain observes nothing.
pub proof fn lemma_drain_observes_once(c: WakeChannel)
    requires
        c.is_connected(),
    ensures
        c.fired().is_pending(),
        !c.fired().drained().is_pending(),
{
}

/// Law: a fire after teardown is dropped: the channel stays disconnected
/// with nothing pending, so no consumer work is triggered.
pub proof fn lemma_fire_after_shutdown_is_dropped(c: WakeChannel)
    ensures
        c.shut().fired() == c.shut(),
{
}

} // verus!
