//! The status cell and the component lifecycle contract.
//!
//! A `Status` is created once per component instance at construction time
//! and owned for the instance's whole life. It holds the component's mutable
//! state and two edge-triggered dirty flags: reading a flag through
//! `is_state_dirty` / `is_props_dirty` atomically clears it, which is how
//! the scheduler drains dirtiness exactly once per detected change.
//!
//! A component instance keeps its own cached copies of the state fields for
//! cheap read access. Between a `set_state` mutation and the next
//! `refresh_state` call the cache and the status may diverge;
//! `refresh_state` is the sole synchronization point that reconciles them.
//!
//! All execution is single-threaded and cooperative. Where the host
//! environment would hand a shared, interior-mutable status handle to event
//! callbacks, here exclusive access is passed explicitly as `&mut`, so the
//! at-most-one-exclusive-borrow discipline is checked statically instead of
//! at run time.

use crate::channel::WakeChannel;
use crate::record::FieldSpec;
use crate::record::Record;
use crate::record::clone_record;
use crate::record::record_eq;
use vstd::prelude::*;

verus! {

broadcast use
    crate::channel::lemma_fired_projections,
    crate::channel::lemma_drained_projections,
    crate::channel::lemma_shut_projections;

/// Stores a component's mutable state along with the metadata that drives
/// re-rendering: the state-dirty and props-dirty flags.
pub struct Status<T> {
    state: T,
    state_dirty: bool,
    props_dirty: bool,
}

impl<T> Status<T> {
    /// The state held by the cell.
    pub closed spec fn state(self) -> T {
        self.state
    }

    /// Whether the state has been mutated since the flag was last read.
    pub closed spec fn state_dirty(self) -> bool {
        self.state_dirty
    }

    /// Whether the props changed since the flag was last read.
    pub closed spec fn props_dirty(self) -> bool {
        self.props_dirty
    }

    /// The cell with the state-dirty flag raised.
    pub closed spec fn marked_state_dirty(self) -> Status<T> {
        Status { state_dirty: true, ..self }
    }

    /// The cell with the state-dirty flag cleared, as a read leaves it.
    pub closed spec fn cleared_state_dirty(self) -> Status<T> {
        Status { state_dirty: false, ..self }
    }

    /// The cell with the props-dirty flag raised.
    pub closed spec fn marked_props_dirty(self) -> Status<T> {
        Status { props_dirty: true, ..self }
    }

    /// The cell with the props-dirty flag cleared, as a read leaves it.
    pub closed spec fn cleared_props_dirty(self) -> Status<T> {
        Status { props_dirty: false, ..self }
    }

    /// The cell with its state replaced and the flags untouched.
    pub closed spec fn with_state(self, state: T) -> Status<T> {
        Status { state, ..self }
    }

    /// Initializes the status with a component's initial state. Construction
    /// marks nothing dirty: dirtiness is reserved for post-construction
    /// change detection.
    pub fn new(state: T) -> (s: Status<T>)
        ensures
            s.state() == state,
            !s.state_dirty(),
            !s.props_dirty(),
    {
        Status { state, state_dirty: false, props_dirty: false }
    }

    /// Marks the state as dirty. Idempotent, with no effect beyond the flag.
    pub fn mark_state_dirty(&mut self)
        ensures
            *final(self) == old(self).marked_state_dirty(),
    {
        self.state_dirty = true;
    }

    /// Reads and resets the state-dirty flag. The read is destructive:
    /// repeated calls without an intervening mutation return false.
    pub fn is_state_dirty(&mut self) -> (r: bool)
        ensures
            r == old(self).state_dirty(),
            *final(self) == old(self).cleared_state_dirty(),
    {
        if self.state_dirty {
            self.state_dirty = false;
            true
        } else {
            false
        }
    }

    /// Marks the props as dirty. Idempotent, with no effect beyond the flag.
    pub fn mark_props_dirty(&mut self)
        ensures
            *final(self) == old(self).marked_props_dirty(),
    {
        self.props_dirty = true;
    }

    /// Reads and resets the props-dirty flag. The read is destructive:
    /// repeated calls without an intervening update return false.
    pub fn is_props_dirty(&mut self) -> (r: bool)
        ensures
            r == old(self).props_dirty(),
            *final(self) == old(self).cleared_props_dirty(),
    {
        if self.props_dirty {
            self.props_dirty = false;
            true
        } else {
            false
        }
    }

    /// Gets the state immutably.
    pub fn state_as_ref(&self) -> (r: &T)
        ensures
            *r == self.state(),
    {
        &self.state
    }

    /// Gets the state mutably, for the lifecycle contract to read or replace
    /// it in place. The flags are untouched by whatever the caller writes.
    pub fn state_as_mut(&mut self) -> (r: &mut T)
        ensures
            *r == old(self).state(),
            *final(self) == old(self).with_state(*final(r)),
    {
        &mut self.state
    }

    /// Replaces the state, handing the previous state back to the caller.
    pub fn replace_state(&mut self, state: T) -> (prev: T)
        ensures
            prev == old(self).state(),
            *final(self) == old(self).with_state(state),
    {
        let mut state = state;
        core::mem::swap(&mut self.state, &mut state);
        state
    }

    /// Fires the application's wake channel, notifying the render root that
    /// something changed. It does not say what changed: the dirty-flag reads
    /// decide that later. Always succeeds from the caller's perspective: on
    /// a torn-down channel the notification is dropped, not a fault.
    pub fn do_react(&self, wake: &mut WakeChannel)
        ensures
            *final(wake) == old(wake).fired(),
    {
        wake.fire();
    }
}

/// Law: dirty-flag reads are destructive. After the state is marked dirty,
/// two consecutive reads of the flag yield true then false, never true
/// twice.
pub proof fn lemma_state_dirty_read_is_destructive<T>(s: Status<T>)
    ensures
        s.marked_state_dirty().state_dirty(),
        !s.marked_state_dirty().cleared_state_dirty().state_dirty(),
{
}

/// Law: the props-dirty flag behaves the same way: one mark yields one true
/// read, and the read clears the flag.
pub proof fn lemma_props_dirty_read_is_destructive<T>(s: Status<T>)
    ensures
        s.marked_props_dirty().props_dirty(),
        !s.marked_props_dirty().cleared_props_dirty().props_dirty(),
{
}

/// Law: marking a flag is idempotent, so a burst of mutations before the
/// scheduler runs is observed as a single change.
pub proof fn lemma_marking_is_idempotent<T>(s: Status<T>)
    ensures
        s.marked_state_dirty().marked_state_dirty() == s.marked_state_dirty(),
        s.marked_props_dirty().marked_props_dirty() == s.marked_props_dirty(),
{
}

/// A component instance backed by field records: its cached state fields,
/// its props fields, its events value, and the status cell it owns.
///
/// The events type is free: events are callbacks, not comparable data, and
/// `update` replaces them unconditionally.
pub struct RecordComponent<E> {
    cached_state: Record,
    props: Record,
    events: E,
    status: Status<Record>,
}

impl<E> RecordComponent<E> {
    /// The props the instance currently holds.
    pub closed spec fn props(self) -> Record {
        self.props
    }

    /// The instance's locally cached copy of the state fields.
    pub closed spec fn cached_state(self) -> Record {
        self.cached_state
    }

    /// The events value the instance currently holds.
    pub closed spec fn events(self) -> E {
        self.events
    }

    /// The status cell the instance owns.
    pub closed spec fn status(self) -> Status<Record> {
        self.status
    }

    /// Whether the component declares at least one state field.
    pub open spec fn declares_state(self) -> bool {
        self.status().state()@.len() > 0
    }

    /// Whether the locally cached state fields agree with the state stored
    /// in the status: true except between a `set_state` mutation and the
    /// next `refresh_state` call.
    pub open spec fn state_in_sync(self) -> bool {
        self.cached_state()@ == self.status().state()@
    }

    /// The instance and the returned previous props after an `update` call:
    /// the new props and events are installed; if any prop field differed,
    /// props-dirty is marked and the previous props are handed back.
    pub closed spec fn spec_update(self, props: Record, events: E) -> (RecordComponent<E>, Option<
        Record,
    >) {
        if props@ == self.props@ {
            (RecordComponent { props, events, ..self }, None)
        } else {
            (
                RecordComponent {
                    props,
                    events,
                    status: self.status.marked_props_dirty(),
                    ..self
                },
                Some(self.props),
            )
        }
    }

    /// The instance after a `set_state` call whose mutator produced the
    /// state `next`: the status stores it and is marked state-dirty, while
    /// the cached fields are left alone until the next `refresh_state`.
    pub closed spec fn spec_set_state(self, next: Record) -> RecordComponent<E> {
        RecordComponent { status: self.status.with_state(next).marked_state_dirty(), ..self }
    }

    /// Constructs the instance from its props, its events and a freshly
    /// created status cell, seeding the local state fields from the status
    /// (cloned, not moved: the status retains ownership). Construction marks
    /// nothing dirty: dirtiness is reserved for post-construction change
    /// detection.
    pub fn init(props: Record, events: E, status: Status<Record>) -> (c: RecordComponent<E>)
        ensures
            c.props() == props,
            c.events() == events,
            c.status() == status,
            c.cached_state()@ == status.state()@,
    {
        let cached_state = clone_record(status.state_as_ref());
        RecordComponent { cached_state, props, events, status }
    }

    /// Updates the component with newer props and events. Events are
    /// replaced unconditionally: they are callbacks, not comparable data.
    /// The incoming props are installed in place of the old ones; if any
    /// field differed, the status is marked props-dirty and the previous
    /// props are returned so the caller can compare generations without an
    /// extra clone. If every field is equal, nothing is marked and `None`
    /// is returned — in particular, a component with zero declared prop
    /// fields never becomes props-dirty.
    pub fn update(&mut self, props: Record, events: E) -> (old_props: Option<Record>)
        ensures
            ({
                let (next, prev) = old(self).spec_update(props, events);
                *final(self) == next && old_props == prev
            }),
    {
        let changed = !record_eq(&self.props, &props);
        let mut incoming = props;
        core::mem::swap(&mut self.props, &mut incoming);
        self.events = events;
        if changed {
            self.status.mark_props_dirty();
            Some(incoming)
        } else {
            None
        }
    }

    /// Reconciles the locally cached state fields with the state stored in
    /// the status, overwriting the cache with a clone of the status's value
    /// where they differ. Returns true iff at least one field differed. A
    /// scheduler calls this before re-deriving a view, so the component
    /// observes state set asynchronously through `set_state`. A component
    /// with zero declared state fields always returns false.
    pub fn refresh_state(&mut self) -> (changed: bool)
        ensures
            changed == !old(self).state_in_sync(),
            final(self).state_in_sync(),
            final(self).cached_state()@ == old(self).status().state()@,
            final(self).props() == old(self).props(),
            final(self).events() == old(self).events(),
            final(self).status() == old(self).status(),
    {
        let in_sync = record_eq(&self.cached_state, self.status.state_as_ref());
        if !in_sync {
            let copy = clone_record(self.status.state_as_ref());
            self.cached_state = copy;
            true
        } else {
            false
        }
    }

    /// Reads and resets the status cell's state-dirty flag. The read is
    /// destructive: a second read without an intervening mutation yields
    /// false.
    pub fn is_state_dirty(&mut self) -> (r: bool)
        ensures
            r == old(self).status().state_dirty(),
            final(self).status() == old(self).status().cleared_state_dirty(),
            !final(self).status().state_dirty(),
            final(self).status().props_dirty() == old(self).status().props_dirty(),
            final(self).status().state() == old(self).status().state(),
            final(self).props() == old(self).props(),
            final(self).events() == old(self).events(),
            final(self).cached_state() == old(self).cached_state(),
    {
        self.status.is_state_dirty()
    }

    /// Reads and resets the status cell's props-dirty flag. The read is
    /// destructive: a second read without an intervening update yields
    /// false.
    pub fn is_props_dirty(&mut self) -> (r: bool)
        ensures
            r == old(self).status().props_dirty(),
            final(self).status() == old(self).status().cleared_props_dirty(),
            !final(self).status().props_dirty(),
            final(self).status().state_dirty() == old(self).status().state_dirty(),
            final(self).status().state() == old(self).status().state(),
            final(self).props() == old(self).props(),
            final(self).events() == old(self).events(),
            final(self).cached_state() == old(self).cached_state(),
    {
        self.status.is_props_dirty()
    }

    /// The props the instance currently holds, for deriving a view.
    pub fn props_as_ref(&self) -> (r: &Record)
        ensures
            *r == self.props(),
    {
        &self.props
    }

    /// The locally cached state fields, for deriving a view. These observe
    /// a `set_state` mutation only after the next `refresh_state`.
    pub fn cached_state_as_ref(&self) -> (r: &Record)
        ensures
            *r == self.cached_state(),
    {
        &self.cached_state
    }

    /// The events value the instance currently holds.
    pub fn events_as_ref(&self) -> (r: &E)
        ensures
            *r == self.events(),
    {
        &self.events
    }

    /// The status cell the instance owns, immutably.
    pub fn status_as_ref(&self) -> (r: &Status<Record>)
        ensures
            *r == self.status(),
    {
        &self.status
    }

    /// Mutates the state of the component by applying the mutator to the
    /// state held in the status, then unconditionally marks the state dirty
    /// and fires the wake channel so the scheduler re-checks the tree. The
    /// locally cached fields are left alone: the next `refresh_state`
    /// reconciles them.
    ///
    /// For a component with zero declared state fields this degenerates to
    /// invoking the mutator against a throwaway empty record and doing
    /// nothing else, so generic code may call `set_state` uniformly.
    pub fn set_state<F: FnOnce(Record) -> Record>(&mut self, mutator: F, wake: &mut WakeChannel)
        requires
            forall|s: Record|
                s@ == old(self).status().state()@ ==> #[trigger] call_requires(mutator, (s,)),
        ensures
            old(self).declares_state() ==> ({
                &&& call_ensures(mutator, (old(self).status().state(),), final(self).status().state())
                &&& *final(self) == old(self).spec_set_state(final(self).status().state())
                &&& *final(wake) == old(wake).fired()
            }),
            !old(self).declares_state() ==> ({
                &&& *final(self) == *old(self)
                &&& *final(wake) == *old(wake)
                &&& (exists|s: Record, out: Record|
                    s@ == Seq::<FieldSpec>::empty() && #[trigger] call_ensures(mutator, (s,), out))
            }),
    {
        apply_state_mutation(&mut self.status, mutator, wake);
    }
}

/// The external state-setter path: requests a state mutation directly
/// against a component's status cell, without access to the component
/// instance or its cached fields. This is how an event callback captured
/// deep in a rendered tree mutates ancestor state; the instance's
/// `refresh_state` later reconciles its cache with the mutation.
///
/// The semantics are those of `set_state` on the instance: apply the
/// mutator, unconditionally mark the state dirty and fire the wake channel.
/// With zero declared state fields the mutator is invoked against a
/// throwaway empty record and nothing else happens.
pub fn apply_state_mutation<F: FnOnce(Record) -> Record>(
    status: &mut Status<Record>,
    mutator: F,
    wake: &mut WakeChannel,
)
    requires
        forall|s: Record|
            s@ == old(status).state()@ ==> #[trigger] call_requires(mutator, (s,)),
    ensures
        old(status).state()@.len() > 0 ==> ({
            &&& call_ensures(mutator, (old(status).state(),), final(status).state())
            &&& *final(status) == old(status).with_state(final(status).state()).marked_state_dirty()
            &&& *final(wake) == old(wake).fired()
        }),
        old(status).state()@.len() == 0 ==> ({
            &&& *final(status) == *old(status)
            &&& *final(wake) == *old(wake)
            &&& (exists|s: Record, out: Record|
                s@ == Seq::<FieldSpec>::empty() && #[trigger] call_ensures(mutator, (s,), out))
        }),
{
    if status.state_as_ref().len() == 0 {
        let throwaway = Record::empty();
        proof {
            assert(throwaway@ =~= status.state()@);
        }
        let _out = mutator(throwaway);
    } else {
        let current = status.replace_state(Record::empty());
        let next = mutator(current);
        let _placeholder = status.replace_state(next);
        status.mark_state_dirty();
        status.do_react(wake);
    }
}

/// The component lifecycle contract: the operations every concrete
/// component type supports, stated abstractly over the type's props, state
/// and events. A concrete implementation must have two forms of state: the
/// locally cached read-only copy, and the state stored in its status cell;
/// the two may diverge between a `set_state` mutation and the next
/// `refresh_state` call.
///
/// The mutate-state operation itself is not part of the trait: its contract
/// quantifies over the mutator closure, which cannot be stated on a trait
/// method here, so `set_state` lives on the concrete component and on the
/// status cell (`apply_state_mutation`).
pub trait Component: Sized {
    /// The prop type of the component: a value type with structural
    /// equality, compared through its view.
    type Props: View;

    /// The state type of the component: a value type with structural
    /// equality, compared through its view.
    type State: View;

    /// The event type of the component: callbacks, never compared.
    type Events;

    /// The props the instance currently holds.
    spec fn props_of(self) -> Self::Props;

    /// The instance's locally cached copy of the state fields.
    spec fn cached_state_of(self) -> Self::State;

    /// The state stored in the instance's status cell.
    spec fn status_state_of(self) -> Self::State;

    /// The status cell's state-dirty flag.
    spec fn state_dirty_of(self) -> bool;

    /// The status cell's props-dirty flag.
    spec fn props_dirty_of(self) -> bool;

    /// The events value the instance currently holds.
    spec fn events_of(self) -> Self::Events;

    /// Whether the component declares at least one state field.
    spec fn declares_state_of(self) -> bool;

    /// Constructs the instance with props, events and a meta-state called
    /// status, seeding the local state fields from the status (cloned, not
    /// moved). Marks nothing dirty: dirtiness is reserved for
    /// post-construction change detection.
    fn init(props: Self::Props, events: Self::Events, status: Status<Self::State>) -> (c: Self)
        ensures
            c.props_of() == props,
            c.events_of() == events,
            c.status_state_of() == status.state(),
            c.cached_state_of()@ == status.state()@,
            c.state_dirty_of() == status.state_dirty(),
            c.props_dirty_of() == status.props_dirty(),
    ;

    /// Updates the component with newer props and events. Events are
    /// replaced unconditionally. The new props are installed; if any field
    /// differed the status is marked props-dirty and the previous props are
    /// returned, and otherwise nothing is marked and `None` is returned.
    fn update(&mut self, props: Self::Props, events: Self::Events) -> (old_props: Option<
        Self::Props,
    >)
        ensures
            final(self).props_of() == props,
            final(self).events_of() == events,
            final(self).cached_state_of() == old(self).cached_state_of(),
            final(self).status_state_of() == old(self).status_state_of(),
            final(self).state_dirty_of() == old(self).state_dirty_of(),
            props@ == old(self).props_of()@ ==> old_props is None && final(self).props_dirty_of()
                == old(self).props_dirty_of(),
            props@ != old(self).props_of()@ ==> old_props == Some(old(self).props_of())
                && final(self).props_dirty_of(),
    ;

    /// Updates the read-only cached state from the mutated status,
    /// returning true iff at least one field differed.
    fn refresh_state(&mut self) -> (changed: bool)
        ensures
            changed == (old(self).cached_state_of()@ != old(self).status_state_of()@),
            final(self).cached_state_of()@ == old(self).status_state_of()@,
            final(self).props_of() == old(self).props_of(),
            final(self).events_of() == old(self).events_of(),
            final(self).status_state_of() == old(self).status_state_of(),
            final(self).state_dirty_of() == old(self).state_dirty_of(),
            final(self).props_dirty_of() == old(self).props_dirty_of(),
    ;

    /// Finds whether the component's state has been altered, resetting the
    /// flag to an undirtied state: the read is destructive.
    fn is_state_dirty(&mut self) -> (r: bool)
        ensures
            r == old(self).state_dirty_of(),
            !final(self).state_dirty_of(),
            final(self).props_dirty_of() == old(self).props_dirty_of(),
            final(self).props_of() == old(self).props_of(),
            final(self).events_of() == old(self).events_of(),
            final(self).cached_state_of() == old(self).cached_state_of(),
            final(self).status_state_of() == old(self).status_state_of(),
    ;

    /// Finds whether the component has been updated with newer props,
    /// resetting the flag to an undirtied state: the read is destructive.
    fn is_props_dirty(&mut self) -> (r: bool)
        ensures
            r == old(self).props_dirty_of(),
            !final(self).props_dirty_of(),
            final(self).state_dirty_of() == old(self).state_dirty_of(),
            final(self).props_of() == old(self).props_of(),
            final(self).events_of() == old(self).events_of(),
            final(self).cached_state_of() == old(self).cached_state_of(),
            final(self).status_state_of() == old(self).status_state_of(),
    ;

}

impl<E> Component for RecordComponent<E> {
    type Props = Record;

    type State = Record;

    type Events = E;

    closed spec fn props_of(self) -> Record {
        self.props
    }

    closed spec fn cached_state_of(self) -> Record {
        self.cached_state
    }

    closed spec fn status_state_of(self) -> Record {
        self.status.state()
    }

    closed spec fn state_dirty_of(self) -> bool {
        self.status.state_dirty()
    }

    closed spec fn props_dirty_of(self) -> bool {
        self.status.props_dirty()
    }

    closed spec fn events_of(self) -> E {
        self.events
    }

    closed spec fn declares_state_of(self) -> bool {
        self.declares_state()
    }

    fn init(props: Record, events: E, status: Status<Record>) -> (c: Self) {
        RecordComponent::init(props, events, status)
    }

    fn update(&mut self, props: Record, events: E) -> (old_props: Option<Record>) {
        self.update(props, events)
    }

    fn refresh_state(&mut self) -> (changed: bool) {
        self.refresh_state()
    }

    fn is_state_dirty(&mut self) -> (r: bool) {
        self.is_state_dirty()
    }

    fn is_props_dirty(&mut self) -> (r: bool) {
        self.is_props_dirty()
    }

}

/// The lifecycle hooks of a component: invoked by the render layer at the
/// corresponding moments of a component's life. The hooks observe the
/// component and have no contract of their own.
pub trait Lifecycle: Component {
    /// Invoked when the component is first created.
    fn created(&self);

    /// Invoked when the component props are updated.
    fn updated(&self, old_props: Self::Props);

    /// Invoked when the component is mounted onto the tree.
    fn mounted(&self);

    /// Invoked when the component is removed from the tree.
    fn destroyed(&self);
}

impl<E> Lifecycle for RecordComponent<E> {
    fn created(&self) {
    }

    fn updated(&self, _old_props: Record) {
    }

    fn mounted(&self) {
    }

    fn destroyed(&self) {
    }
}

/// Trait to derive a view for the component. The markup type is abstract
/// here: the virtual-DOM layer that consumes it is an external
/// collaborator.
pub trait Render: Lifecycle {
    /// The markup value a render pass produces.
    type Rendered;

    /// Derives the component's view from its cached fields.
    fn render(&self) -> Self::Rendered;
}

impl<E> Render for RecordComponent<E> {
    type Rendered = Record;

    fn render(&self) -> (r: Record) {
        clone_record(&self.cached_state)
    }
}

/// Since the events passed on to a component run in the context of its
/// parent, the events type is generic over the render context; this trait
/// recovers that generic pair from the plain events type associated with
/// the component.
pub trait EventsPair<T> {
    /// The generics pair of `Self`.
    type Other;
}

impl<RCTX: Render> EventsPair<RCTX> for () {
    type Other = ();
}

/// Trait to create a new builder for `Self`, used to build props and
/// events values. Introduced to abstract over the unit type, which stands
/// for "no props" / "no events".
pub trait BuilderCreator: Sized {
    /// The builder type.
    type Builder: BuilderFinisher<Built = Self>;

    /// Initializes a new builder.
    fn builder() -> Self::Builder;
}

/// Trait to finish building `Self::Built`, the counterpart of
/// `BuilderCreator`.
pub trait BuilderFinisher: Sized {
    /// The built type.
    type Built;

    /// Finishes building and returns the built value.
    fn finish(self) -> Self::Built;
}

impl BuilderCreator for () {
    type Builder = ();

    fn builder() -> () {
        ()
    }
}

impl BuilderFinisher for () {
    type Built = ();

    fn finish(self) -> () {
        self
    }
}

/// Law: updating with props equal in every field to the current props
/// returns `None` and does not touch the props-dirty flag — in particular
/// it stays false if it was false.
pub proof fn lemma_update_with_equal_props_is_clean<E>(c: RecordComponent<E>, p: Record, e: E)
    requires
        p@ == c.props()@,
    ensures
        ({
            let (next, prev) = c.spec_update(p, e);
            prev is None && next.status().props_dirty() == c.status().props_dirty()
        }),
{
}

/// Law: updating with at least one differing prop field returns the
/// previous props and leaves the props-dirty flag raised exactly once: the
/// first destructive read yields true, the next yields false.
pub proof fn lemma_update_with_changed_props_marks_dirty<E>(c: RecordComponent<E>, p: Record, e: E)
    requires
        p@ != c.props()@,
    ensures
        ({
            let (next, prev) = c.spec_update(p, e);
            &&& prev == Some(c.props())
            &&& next.status().props_dirty()
            &&& !next.status().cleared_props_dirty().props_dirty()
        }),
{
}

/// Law: a component with zero declared prop fields always gets `None` back
/// from `update`, whatever the events payload, and its status is untouched.
pub proof fn lemma_update_without_declared_props_is_clean<E>(c: RecordComponent<E>, p: Record, e: E)
    requires
        c.props()@.len() == 0,
        p@.len() == 0,
    ensures
        ({
            let (next, prev) = c.spec_update(p, e);
            prev is None && next.status() == c.status()
        }),
{
    assert(p@ =~= c.props()@);
}

/// Law: after a `set_state` mutation stores state that differs from the
/// cached fields, the state-dirty flag reads true exactly once (a second
/// destructive read yields false), and the cache is out of sync, so the
/// next `refresh_state` reports a change and reconciles it.
pub proof fn lemma_set_state_then_refresh_observes_change<E>(c: RecordComponent<E>, next: Record)
    requires
        next@ != c.cached_state()@,
    ensures
        c.spec_set_state(next).status().state_dirty(),
        !c.spec_set_state(next).status().cleared_state_dirty().state_dirty(),
        !c.spec_set_state(next).state_in_sync(),
        c.spec_set_state(next).status().state() == next,
        c.spec_set_state(next).cached_state() == c.cached_state(),
{
}

/// Law: coalescing loses no pending change. After two mutations whose
/// wake-ups collapsed into one consumer run, the status still carries the
/// later state and a raised dirty flag, so the single re-check observes
/// the cumulative effect of both.
pub proof fn lemma_coalesced_wakes_lose_no_change<E>(
    c: RecordComponent<E>,
    first: Record,
    second: Record,
)
    ensures
        c.spec_set_state(first).spec_set_state(second).status().state() == second,
        c.spec_set_state(first).spec_set_state(second).status().state_dirty(),
        c.spec_set_state(first).spec_set_state(second).cached_state() == c.cached_state(),
{
}

/// Law: a component with zero declared state fields is never out of sync,
/// so `refresh_state` always returns false for it.
pub proof fn lemma_stateless_refresh_reports_nothing<E>(c: RecordComponent<E>)
    requires
        c.cached_state()@.len() == 0,
        c.status().state()@.len() == 0,
    ensures
        c.state_in_sync(),
{
    assert(c.cached_state()@ =~= c.status().state()@);
}

} // verus!
