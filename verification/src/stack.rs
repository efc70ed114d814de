//! Stack-depth accounting: the scoped guards that enforce each operation's
//! declared depth delta, and the two stack-space checks.
//!
//! Depth mismatches are internal-invariant violations: a guard reports them
//! as [`Fatal`] verdicts, which the embedding turns into a process abort.
//! The fallible space check exists separately for user-controlled growth
//! requests, which must never be treated as internal bugs.

use vstd::prelude::*;
use crate::errors::{Error, Fatal};
use crate::value::Value;
use crate::vm::Vm;

verus! {

/// Assert that `amount` more slots fit in this frame.  Violation is an
/// internal-core bug (the fixed per-operation slot budgets are a core
/// contract), so the condition is demanded of the caller outright.
pub fn check_stack(vm: &Vm, amount: usize)
    requires
        vm.wf(),
        vm.depth() + amount <= vm.capacity,
{
    let ok = vm.check_space(amount);
    assert(ok);
}

/// Fallible stack-space check for user-controlled growth requests:
/// insufficient space yields [`Error::StackError`], never an abort, because
/// the requested amount can be influenced by untrusted input.
pub fn check_stack_err(vm: &Vm, amount: usize) -> (r: Result<(), Error>)
    requires
        vm.wf(),
    ensures
        r is Ok <==> vm.depth() + amount <= vm.capacity,
        r is Err ==> r == Err::<(), Error>(Error::StackError),
{
    if vm.check_space(amount) {
        Ok(())
    } else {
        Err(Error::StackError)
    }
}

/// A scope that enforces a declared stack delta for an operation that must
/// not fail.  Acquire it before the operation with [`stack_guard`], run the
/// operation, then [`StackGuard::close`] it.
pub struct StackGuard {
    /// The stack depth the operation must leave behind.
    pub expected: usize,
}

/// A scope that enforces a declared stack delta for a fallible operation.
/// Acquire it with [`stack_err_guard`], run the operation, then close it
/// with [`StackErrGuard::close`], saying whether the operation failed.
pub struct StackErrGuard {
    /// The stack depth the operation must leave behind on success, and the
    /// depth the stack is trimmed to on failure.
    pub expected: usize,
}

/// What closing [`StackGuard`] guarantees: on a matched depth nothing
/// changes; on a mismatch the stack is cleared and a fatal mismatch verdict
/// is reported.
pub open spec fn guard_close_post(expected: nat, mid: Vm, post: Vm, r: Option<Fatal>) -> bool {
    &&& Vm::same_heap(mid, post)
    &&& mid.depth() == expected ==> r is None && post == mid
    &&& mid.depth() != expected ==> {
        &&& r == Some(Fatal::StackMismatch)
        &&& post.stack@ =~= Seq::<Value>::empty()
    }
}

/// What closing [`StackErrGuard`] guarantees.  On success the depth must
/// match exactly.  On failure the operation may have left residue above the
/// expected depth, which is trimmed away; a depth below the expected one
/// cannot be repaired and is fatal.
pub open spec fn err_guard_close_post(
    expected: nat,
    failed: bool,
    mid: Vm,
    post: Vm,
    r: Option<Fatal>,
) -> bool {
    &&& Vm::same_heap(mid, post)
    &&& !failed ==> guard_close_post(expected, mid, post, r)
    &&& (failed && mid.depth() >= expected) ==> {
        &&& r is None
        &&& post.stack@ =~= mid.stack@.subrange(0, expected as int)
    }
    &&& (failed && mid.depth() < expected) ==> {
        &&& r == Some(Fatal::StackUnderflow)
        &&& post.stack@ =~= Seq::<Value>::empty()
    }
}

/// Open a depth-accounting scope for an operation declared with stack delta
/// `change`.  A delta that would pop more values than exist is an internal
/// logic error and is demanded away from the caller.
pub fn stack_guard(vm: &Vm, change: i32) -> (g: StackGuard)
    requires
        vm.wf(),
        0 <= vm.depth() + change,
    ensures
        g.expected == vm.depth() + change,
{
    let d = vm.top();
    if change >= 0 {
        StackGuard { expected: d + (change as usize) }
    } else {
        StackGuard { expected: d - ((-change) as usize) }
    }
}

/// Open a depth-accounting scope for a fallible operation declared with
/// stack delta `change`.
pub fn stack_err_guard(vm: &Vm, change: i32) -> (g: StackErrGuard)
    requires
        vm.wf(),
        0 <= vm.depth() + change,
    ensures
        g.expected == vm.depth() + change,
{
    let d = vm.top();
    if change >= 0 {
        StackErrGuard { expected: d + (change as usize) }
    } else {
        StackErrGuard { expected: d - ((-change) as usize) }
    }
}

impl StackGuard {
    /// Close the scope after the operation ran.  The actual depth must equal
    /// the expected one; a mismatch means a push or pop was miscounted
    /// somewhere in the core, so the stack is cleared and a fatal verdict
    /// reported.
    pub fn close(self, vm: &mut Vm) -> (r: Option<Fatal>)
        requires
            old(vm).wf(),
        ensures
            final(vm).wf(),
            guard_close_post(self.expected as nat, *old(vm), *final(vm), r),
    {
        if vm.top() == self.expected {
            None
        } else {
            vm.settop(0);
            Some(Fatal::StackMismatch)
        }
    }
}

impl StackErrGuard {
    /// Close the scope, saying whether the operation failed.  On success the
    /// depth must match exactly.  On failure, error-path residue above the
    /// expected depth is trimmed down to it before the error propagates;
    /// a depth below the expected one is fatal.
    pub fn close(self, vm: &mut Vm, failed: bool) -> (r: Option<Fatal>)
        requires
            old(vm).wf(),
        ensures
            final(vm).wf(),
            err_guard_close_post(self.expected as nat, failed, *old(vm), *final(vm), r),
    {
        let d = vm.top();
        if !failed {
            if d == self.expected {
                None
            } else {
                vm.settop(0);
                Some(Fatal::StackMismatch)
            }
        } else {
            if d >= self.expected {
                if d > self.expected {
                    vm.settop(self.expected);
                }
                None
            } else {
                vm.settop(0);
                Some(Fatal::StackUnderflow)
            }
        }
    }
}

} // verus!
