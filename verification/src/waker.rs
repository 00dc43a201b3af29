//! Single-slot registration of "the computation waiting on this
//! condition", woken from interrupt-handler context.
//!
//! A slot holds at most one registered continuation, named by a plain
//! id; a new registration overwrites the previous one. Waking takes the
//! registration out, so a second wake before re-registration is a no-op.
//! Correctness of the waits built on this rests on the
//! register-then-recheck discipline of the drivers, not on queuing.

use vstd::prelude::*;

verus! {

/// One waker slot: the single cell for one condition source.
#[derive(Clone, Copy, PartialEq, Eq, Structural)]
pub struct WakerSlot {
    /// The continuation currently registered, if any.
    pub registered: Option<u32>,
}

/// Registration replaces whatever was there; the displaced continuation
/// is dropped, never queued.
pub open spec fn spec_register(slot: WakerSlot, cont: u32) -> WakerSlot {
    WakerSlot { registered: Some(cont) }
}

/// Waking empties the slot and reports the continuation that was
/// registered, if any.
pub open spec fn spec_wake(slot: WakerSlot) -> (WakerSlot, Option<u32>) {
    (WakerSlot { registered: None }, slot.registered)
}

impl WakerSlot {
    /// An empty slot, holding no continuation.
    pub fn new() -> (slot: WakerSlot)
        ensures
            slot.registered is None,
    {
        WakerSlot { registered: None }
    }

    /// Registers `cont` as the one computation waiting on this slot's
    /// condition, displacing any earlier registration.
    pub fn register(&mut self, cont: u32)
        ensures
            *final(self) == spec_register(*old(self), cont),
    {
        self.registered = Some(cont);
    }

    /// Wakes the slot: reports the registered continuation for the
    /// scheduler to re-poll and clears the registration. A no-op when
    /// nothing is registered, which loses no wake-up: a resumed
    /// computation always rechecks its condition before waiting again.
    pub fn wake(&mut self) -> (woken: Option<u32>)
        ensures
            (*final(self), woken) == spec_wake(*old(self)),
    {
        let woken = self.registered;
        self.registered = None;
        woken
    }
}

/// Registering a continuation and then waking selects exactly that
/// continuation, and a second wake before re-registration selects
/// nothing.
pub proof fn lemma_register_then_wake(slot: WakerSlot, cont: u32)
    ensures
        spec_wake(spec_register(slot, cont)).1 == Some(cont),
        spec_wake(spec_wake(spec_register(slot, cont)).0).1 is None,
{
}

/// Registering a second continuation before the first is woken
/// discards the first without error: the slot then holds only the
/// newcomer.
pub proof fn lemma_register_overwrites(slot: WakerSlot, first: u32, second: u32)
    ensures
        spec_register(spec_register(slot, first), second).registered == Some(second),
        spec_wake(spec_register(spec_register(slot, first), second)).1 == Some(second),
{
}

} // verus!
