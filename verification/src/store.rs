//! The lifecycle store: the one place that holds the handle of the running
//! backend between its launch and the shutdown of the application.
//!
//! Every operation takes the store by `&mut`, so that a store shared between
//! threads has to sit behind a lock, and storing and taking exclude each
//! other.

use crate::error::SupervisorError;
use vstd::prelude::*;

verus! {

/// What the store holds.
pub ghost enum StoreState<H> {
    /// Nothing was stored yet.
    Vacant,
    /// The handle of the running backend.
    Holding(H),
    /// The handle was taken out; the store stays empty for good.
    Spent,
}

/// What the shutdown hook is to do with what it took out of the store.
#[derive(Debug, PartialEq, Eq)]
pub enum ShutdownAction<H> {
    /// Send the kill signal through this handle, once, without waiting for
    /// the process to exit.
    Terminate(H),
    /// There is nothing to terminate.
    Nothing,
}

/// What is left to report after the kill signal was tried: a signal that
/// could not be sent is warned of and otherwise ignored.
pub open spec fn warning_after_terminate(signal_sent: bool) -> Option<SupervisorError> {
    if signal_sent {
        None
    } else {
        Some(SupervisorError::Terminate)
    }
}

/// One operation on the store.
pub ghost enum StoreOp<H> {
    Store(H),
    Take,
}

impl<H> StoreState<H> {
    /// Whether a handle can be stored.
    pub open spec fn accepts(self) -> bool {
        self is Vacant
    }

    /// The store after an attempt to store `handle`: it is kept only by a
    /// store that never held one.
    pub open spec fn stored(self, handle: H) -> StoreState<H> {
        if self.accepts() {
            StoreState::Holding(handle)
        } else {
            self
        }
    }

    /// The store after taking, and what was taken. Only a held handle
    /// leaves; taking from a store without one changes nothing.
    pub open spec fn taken(self) -> (StoreState<H>, ShutdownAction<H>) {
        match self {
            StoreState::Holding(handle) => (StoreState::Spent, ShutdownAction::Terminate(handle)),
            _ => (self, ShutdownAction::Nothing),
        }
    }

    /// The store after one operation.
    pub open spec fn apply(self, op: StoreOp<H>) -> StoreState<H> {
        match op {
            StoreOp::Store(handle) => self.stored(handle),
            StoreOp::Take => self.taken().0,
        }
    }

    /// The store after `ops`, one after the other.
    pub open spec fn run(self, ops: Seq<StoreOp<H>>) -> StoreState<H>
        decreases ops.len(),
    {
        if ops.len() == 0 {
            self
        } else {
            self.run(ops.drop_last()).apply(ops.last())
        }
    }
}

/// Taking twice in a row: the first take hands out the held handle and
/// leaves the store empty; the second finds nothing and changes nothing.
pub proof fn lemma_take_twice<H>(state: StoreState<H>)
    ensures
        state matches StoreState::Holding(handle) ==> state.taken() == (
            StoreState::<H>::Spent,
            ShutdownAction::Terminate(handle),
        ),
        state.taken().0.taken() == (state.taken().0, ShutdownAction::<H>::Nothing),
{
}

/// Taking from a store in which nothing was ever stored changes nothing and
/// hands out nothing.
pub proof fn lemma_take_from_vacant<H>()
    ensures
        StoreState::<H>::Vacant.taken() == (StoreState::<H>::Vacant, ShutdownAction::<H>::Nothing),
{
}

/// Once the handle was taken, the store holds none again, whatever is done
/// to it.
pub proof fn lemma_never_repopulated<H>(state: StoreState<H>, ops: Seq<StoreOp<H>>)
    requires
        state is Spent,
    ensures
        state.run(ops) is Spent,
    decreases ops.len(),
{
    if ops.len() > 0 {
        lemma_never_repopulated(state, ops.drop_last());
    }
}

/// A held handle is never replaced: whatever is done to the store, it holds
/// the same handle or was emptied for good.
pub proof fn lemma_held_handle_stays<H>(state: StoreState<H>, ops: Seq<StoreOp<H>>)
    requires
        state is Holding,
    ensures
        state.run(ops) == state || state.run(ops) is Spent,
    decreases ops.len(),
{
    if ops.len() > 0 {
        lemma_held_handle_stays(state, ops.drop_last());
    }
}

/// Says what to report once the host has tried to send the kill signal.
/// Shutdown goes on either way.
pub fn after_terminate(signal_sent: bool) -> (warning: Option<SupervisorError>)
    ensures
        warning == warning_after_terminate(signal_sent),
{
    if signal_sent {
        None
    } else {
        Some(SupervisorError::Terminate)
    }
}

/// What the store has in it, as the program holds it.
#[derive(Debug)]
enum Slot<H> {
    Vacant,
    Holding(H),
    Spent,
}

/// The store of the backend's process handle.
#[derive(Debug)]
pub struct LifecycleStore<H> {
    slot: Slot<H>,
}

impl<H> View for LifecycleStore<H> {
    type V = StoreState<H>;

    closed spec fn view(&self) -> StoreState<H> {
        match self.slot {
            Slot::Vacant => StoreState::Vacant,
            Slot::Holding(handle) => StoreState::Holding(handle),
            Slot::Spent => StoreState::Spent,
        }
    }
}

impl<H> LifecycleStore<H> {
    /// An empty store.
    pub fn new() -> (store: LifecycleStore<H>)
        ensures
            store@ == StoreState::<H>::Vacant,
    {
        LifecycleStore { slot: Slot::Vacant }
    }

    /// Whether the store holds a handle.
    pub fn is_holding(&self) -> (holding: bool)
        ensures
            holding == (self@ is Holding),
    {
        match self.slot {
            Slot::Holding(_) => true,
            _ => false,
        }
    }

    /// Puts the handle of the launched backend into the store.
    ///
    /// Only a store that never held a handle takes one. Any other store
    /// stays as it is and gives the handle back.
    pub fn store(&mut self, handle: H) -> (refused: Result<(), H>)
        ensures
            final(self)@ == old(self)@.stored(handle),
            refused == if old(self)@.accepts() {
                Ok::<(), H>(())
            } else {
                Err::<(), H>(handle)
            },
    {
        match self.slot {
            Slot::Vacant => {
                self.slot = Slot::Holding(handle);
                Ok(())
            },
            _ => Err(handle),
        }
    }

    /// Takes the held handle out of the store, for good, and hands it over
    /// for termination. A store without a handle is left as it is.
    pub fn take_and_terminate(&mut self) -> (action: ShutdownAction<H>)
        ensures
            (final(self)@, action) == old(self)@.taken(),
    {
        let mut slot: Slot<H> = Slot::Spent;
        core::mem::swap(&mut self.slot, &mut slot);
        match slot {
            Slot::Holding(handle) => ShutdownAction::Terminate(handle),
            Slot::Vacant => {
                self.slot = Slot::Vacant;
                ShutdownAction::Nothing
            },
            Slot::Spent => ShutdownAction::Nothing,
        }
    }
}

} // verus!
