//! Running an operation on shared state with interrupts masked.

use vstd::prelude::*;

verus! {

/// An operation on state of type `S` that an interrupt handler must not interleave with.
pub trait Exclusive<S> {
    /// What the operation hands back.
    type Output;

    /// Relates the state before and after the operation to what it hands back.
    spec fn effect(&self, before: S, after: S, out: Self::Output) -> bool;

    /// Performs the operation on `state`.
    fn run(&self, state: &mut S) -> (out: Self::Output)
        ensures
            self.effect(*old(state), *final(state), out),
    ;
}

/// Calls `critical_section::with`, which masks interrupts, calls the closure it is given once
/// and hands back what the closure returned. The closure here is one call of `op.run(state)`,
/// so the state change and the result are those of `run`.
#[verifier::external_body]
pub(crate) fn run_exclusive<S, Op: Exclusive<S>>(op: &Op, state: &mut S) -> (out: Op::Output)
    ensures
        op.effect(*old(state), *final(state), out),
{
    critical_section::with(|_| op.run(state))
}

} // verus!
