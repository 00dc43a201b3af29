//! Process-wide mutual exclusion by masking the one global
//! interrupt-enable bit.
//!
//! `acquire` clears the bit and hands back a token recording whether it
//! was set before; `release` restores exactly that earlier state. Nesting
//! works without a counter because each matched pair carries its own
//! token: an inner pair sees "already masked" and restores "still
//! masked", never re-enabling early.

use vstd::prelude::*;

verus! {

/// The execution context's global interrupt-enable state: the single
/// machine-status bit that critical sections mask and restore.
#[derive(Clone, Copy, PartialEq, Eq, Structural)]
pub struct Cpu {
    /// Whether interrupt delivery is currently enabled.
    pub interrupts_enabled: bool,
}

/// Witness of the interrupt-enable state saved by one `acquire`; the
/// matching `release` consumes it.
#[derive(Clone, Copy, PartialEq, Eq, Structural)]
pub struct RestoreState {
    /// Whether interrupts were enabled when the section was entered.
    pub was_enabled: bool,
}

/// Entering a critical section: interrupts become masked, and the token
/// remembers the state found on entry.
pub open spec fn spec_acquire(enabled: bool) -> (Cpu, RestoreState) {
    (Cpu { interrupts_enabled: false }, RestoreState { was_enabled: enabled })
}

/// Leaving a critical section: the saved bit is set again if and only if
/// it was set on entry; a nested exit therefore leaves the mask in place.
pub open spec fn spec_release(enabled: bool, token: RestoreState) -> Cpu {
    Cpu { interrupts_enabled: enabled || token.was_enabled }
}

/// The critical-section primitive itself. It owns no state: the masked
/// bit lives in the [`Cpu`] the caller threads through.
pub struct CriticalSection;

impl CriticalSection {
    /// Masks interrupts and returns the state to restore later.
    pub fn acquire(cpu: &mut Cpu) -> (token: RestoreState)
        ensures
            (*final(cpu), token) == spec_acquire(old(cpu).interrupts_enabled),
            !final(cpu).interrupts_enabled,
            token.was_enabled == old(cpu).interrupts_enabled,
    {
        let token = RestoreState { was_enabled: cpu.interrupts_enabled };
        cpu.interrupts_enabled = false;
        token
    }

    /// Restores the interrupt-enable state saved by the matching
    /// `acquire`. Re-enables only when the token says interrupts were
    /// enabled before; otherwise the state is left untouched.
    pub fn release(cpu: &mut Cpu, token: RestoreState)
        ensures
            *final(cpu) == spec_release(old(cpu).interrupts_enabled, token),
            final(cpu).interrupts_enabled == (old(cpu).interrupts_enabled
                || token.was_enabled),
    {
        if token.was_enabled {
            cpu.interrupts_enabled = true;
        }
    }
}

/// A well-nested run of critical sections. `Empty` does nothing;
/// `Block(inner, rest)` acquires, runs `inner` while holding the
/// section, releases with the token of that acquire, then runs `rest`.
/// Every well-nested interleaving of matched acquire/release pairs has
/// this shape.
pub enum Nesting {
    Empty,
    Block(Box<Nesting>, Box<Nesting>),
}

/// The interrupt-enable bit after running a well-nested sequence of
/// matched `acquire`/`release` pairs, each release fed the token of its
/// own acquire, starting from state `enabled`.
pub open spec fn run_nested(enabled: bool, n: Nesting) -> bool
    decreases n,
{
    match n {
        Nesting::Empty => enabled,
        Nesting::Block(inner, rest) => {
            let (cpu, token) = spec_acquire(enabled);
            let after_inner = run_nested(cpu.interrupts_enabled, *inner);
            let after_exit = spec_release(after_inner, token);
            run_nested(after_exit.interrupts_enabled, *rest)
        },
    }
}

/// Any number of matched acquire/release pairs, nested to any depth,
/// restore the interrupt-enable bit found at the start: the token
/// discipline never re-enables interrupts early and never leaves them
/// masked afterwards.
pub proof fn lemma_nested_sections_restore(enabled: bool, n: Nesting)
    ensures
        run_nested(enabled, n) == enabled,
    decreases n,
{
    match n {
        Nesting::Empty => {},
        Nesting::Block(inner, rest) => {
            lemma_nested_sections_restore(false, *inner);
            lemma_nested_sections_restore(enabled, *rest);
        },
    }
}

} // verus!
