//! Reactive lifecycle core of a component-based UI framework.
//!
//! The library tracks each component's props and mutable state, decides when
//! a component has changed enough to warrant a re-render, and propagates that
//! decision to a render scheduler through a coalescing wake channel.
//!
//! The pieces:
//! - [`channel::WakeChannel`]: the one-shot-per-tick wake signal that marks
//!   the render root as needing re-evaluation.
//! - [`record::Record`]: a field record with structural equality, the value
//!   representation for props and state.
//! - [`component::Status`]: the per-component cell holding the mutable state
//!   and two edge-triggered dirty flags (state-dirty, props-dirty).
//! - [`component`]: the component lifecycle contract (init, update,
//!   refresh-state, dirty queries, mutate-state) and a record-backed
//!   component that implements it.
//!
//! All execution is single-threaded and cooperative: the host event loop
//! drives components, and mutable access is passed explicitly, so exclusive
//! access is checked statically rather than at run time.

pub mod channel;
pub mod component;
pub mod record;

use crate::channel::WakeChannel;
use crate::component::RecordComponent;
use crate::record::Record;
use vstd::prelude::*;

verus! {

/// The entry point that ties a root component to the change-propagation
/// machinery. Constructed from the root component, then mounted, which
/// creates the wake channel bound to this render root.
pub struct App<E> {
    root: RecordComponent<E>,
}

impl<E> App<E> {
    /// The root component the app was built from.
    pub closed spec fn root(self) -> RecordComponent<E> {
        self.root
    }

    /// Creates a new app around the given root component.
    pub fn new(root: RecordComponent<E>) -> (a: App<E>)
        ensures
            a.root() == root,
    {
        App { root }
    }

    /// Mounts the app: creates the wake channel for this render root and
    /// hands back the reactive app that the host loop drives. The channel
    /// starts connected with no wake-up pending.
    pub fn mount(self) -> (r: ReactiveApp<E>)
        ensures
            r.root() == self.root(),
            r.channel().is_connected(),
            !r.channel().is_pending(),
    {
        ReactiveApp { root: self.root, channel: WakeChannel::new() }
    }
}

/// A mounted app: the root component together with the wake channel that
/// components fire through `set_state`. The host loop drains the channel
/// (`poll_wake`) and, when a wake-up arrived, re-checks the tree through
/// the root's dirty flags and `refresh_state`.
pub struct ReactiveApp<E> {
    root: RecordComponent<E>,
    channel: WakeChannel,
}

impl<E> ReactiveApp<E> {
    /// The root component of the mounted app.
    pub closed spec fn root(self) -> RecordComponent<E> {
        self.root
    }

    /// The app's wake channel.
    pub closed spec fn channel(self) -> WakeChannel {
        self.channel
    }

    /// Requests a state mutation of the root component through the app's
    /// own channel: the external setter path an event callback uses. The
    /// mutation is applied to the status cell, the state is marked dirty
    /// and the wake channel is fired; the root's cached fields are left for
    /// the next `refresh_state` to reconcile.
    pub fn set_root_state<F: FnOnce(Record) -> Record>(&mut self, mutator: F)
        requires
            forall|s: Record|
                s@ == old(self).root().status().state()@ ==> #[trigger] call_requires(
                    mutator,
                    (s,),
                ),
        ensures
            old(self).root().declares_state() ==> ({
                &&& call_ensures(
                    mutator,
                    (old(self).root().status().state(),),
                    final(self).root().status().state(),
                )
                &&& final(self).root() == old(self).root().spec_set_state(
                    final(self).root().status().state(),
                )
                &&& final(self).channel() == old(self).channel().fired()
            }),
            !old(self).root().declares_state() ==> *final(self) == *old(self),
    {
        self.root.set_state(mutator, &mut self.channel);
    }

    /// Drains the wake channel from the consumer side: true iff a wake-up
    /// was pending, in which case the host loop runs the scheduler once.
    /// Fires coalesce, so a burst of mutations yields one true poll.
    pub fn poll_wake(&mut self) -> (woke: bool)
        ensures
            woke == old(self).channel().is_pending(),
            final(self).channel() == old(self).channel().drained(),
            final(self).root() == old(self).root(),
    {
        self.channel.consume()
    }

    /// One consumer invocation of the render scheduler: drains the wake
    /// channel and, if a wake-up was pending, re-checks the tree — reads
    /// and clears both dirty flags of the root and reconciles its cached
    /// state. Because every invocation does the full re-check, coalescing
    /// fires never loses a pending change: the check observes the latest
    /// dirty flags and state.
    pub fn process_wake(&mut self) -> (woke: bool)
        ensures
            woke == old(self).channel().is_pending(),
            final(self).channel() == old(self).channel().drained(),
            !woke ==> final(self).root() == old(self).root(),
            woke ==> ({
                &&& final(self).root().props() == old(self).root().props()
                &&& final(self).root().events() == old(self).root().events()
                &&& final(self).root().status().state() == old(self).root().status().state()
                &&& !final(self).root().status().state_dirty()
                &&& !final(self).root().status().props_dirty()
                &&& final(self).root().state_in_sync()
            }),
    {
        let woke = self.channel.consume();
        if woke {
            let _props_changed = self.root.is_props_dirty();
            let _state_changed = self.root.is_state_dirty();
            let _refreshed = self.root.refresh_state();
        }
        woke
    }

    /// The root component, immutably, for deriving a view.
    pub fn root_as_ref(&self) -> (r: &RecordComponent<E>)
        ensures
            *r == self.root(),
    {
        &self.root
    }

    /// The root component, mutably, for the scheduler to drive the
    /// lifecycle operations. The channel is untouched by whatever the
    /// caller does with the component.
    pub fn root_as_mut(&mut self) -> (r: &mut RecordComponent<E>)
        ensures
            *r == old(self).root(),
            final(self).root() == *final(r),
            final(self).channel() == old(self).channel(),
    {
        &mut self.root
    }

    /// Unmounts the app: tears the channel down, so a late `set_state`
    /// still applies its mutation but its wake-up is silently dropped.
    pub fn unmount(&mut self)
        ensures
            final(self).channel() == old(self).channel().shut(),
            final(self).root() == old(self).root(),
    {
        self.channel.disconnect();
    }
}

} // verus!
