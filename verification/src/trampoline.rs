//! The callback trampoline: the single choke point through which every host
//! closure invoked by the machine executes.
//!
//! The host side runs the closure under a panic-catching boundary and hands
//! the outcome here.  A typed failure or a captured panic is boxed into an
//! envelope and raised through the machine's non-local error transfer; a
//! plain success is forwarded as the machine-level return.

use vstd::prelude::*;
use vstd::string::StringExecFns;
use crate::envelope::{push_wrapped_error, push_wrapped_panic, take_userdata};
use crate::errors::{Error, Fatal};
use crate::value::{foreign_id, PanicPayload, Payload, Value};
use crate::vm::{Object, Vm};

verus! {

/// How one invocation of a host closure ended, as observed at the
/// panic-catching boundary.
pub enum CallbackOutcome {
    /// The closure returned normally, with this many machine-level results.
    Success(i32),
    /// The closure returned a typed error.
    Failure(Error),
    /// The closure panicked; the payload was captured at the boundary.
    Panicked(PanicPayload),
}

/// What the trampoline tells the machine.
pub enum CallbackResult {
    /// Forward the closure's results as the machine-level return.
    Return(i32),
    /// A wrapped failure sits alone on the stack; transfer control to the
    /// nearest protected-call boundary.
    Raise,
    /// No safe way to continue: the embedding aborts the process.
    Abort(Fatal),
}

/// What the alternate calling protocol tells the machine.
pub enum RCall {
    /// Forward the closure's results.
    Return(i32),
    /// The lightweight out-of-stack-space code: cheap, and itself immune to
    /// stack exhaustion.
    StackErr,
    /// A wrapped failure sits alone on the stack.
    RaiseErr,
    /// No safe way to continue: the embedding aborts the process.
    Abort(Fatal),
}

/// The stack holds exactly one fresh error envelope wrapping `e`; nothing
/// else changed.
pub open spec fn raised_error(pre: Vm, e: Error, post: Vm) -> bool {
    &&& post.stack@ =~= seq![Value::Foreign(pre.objects@.len() as usize)]
    &&& post.objects@ =~= pre.objects@.push(
        Object { tag: Some(pre.reg().error_tag), payload: Payload::WrappedError(e) },
    )
    &&& post.capacity == pre.capacity
    &&& post.gc_running == pre.gc_running
    &&& post.registry == pre.registry
    &&& post.next_tag == pre.next_tag
    &&& post.main_thread == pre.main_thread
}

/// The stack holds exactly one fresh panic envelope carrying `p`; nothing
/// else changed.
pub open spec fn raised_panic(pre: Vm, p: PanicPayload, post: Vm) -> bool {
    &&& post.stack@ =~= seq![Value::Foreign(pre.objects@.len() as usize)]
    &&& post.objects@ =~= pre.objects@.push(
        Object {
            tag: Some(pre.reg().panic_tag),
            payload: Payload::WrappedPanic(Some(p)),
        },
    )
    &&& post.capacity == pre.capacity
    &&& post.gc_running == pre.gc_running
    &&& post.registry == pre.registry
    &&& post.next_tag == pre.next_tag
    &&& post.main_thread == pre.main_thread
}

/// Convert a host closure's outcome into the machine's convention.
///
/// A success is forwarded.  A typed failure clears the stack and raises an
/// error envelope; if there is no room even for the envelope, the machine's
/// own out-of-space failure text is raised instead.  A captured panic
/// clears the stack and raises a panic envelope — but if there is no room
/// to represent it, there is no safe way to propagate the panic at all, and
/// the verdict is a fatal abort rather than a silently dropped panic.
pub fn callback_error(vm: &mut Vm, outcome: CallbackOutcome) -> (r: CallbackResult)
    requires
        old(vm).wf(),
        old(vm).initialized(),
        old(vm).objects@.len() < usize::MAX,
    ensures
        final(vm).wf(),
        outcome matches CallbackOutcome::Success(n) ==> r == CallbackResult::Return(n)
            && *final(vm) == *old(vm),
        outcome matches CallbackOutcome::Failure(e) ==> {
            if old(vm).capacity >= 2 {
                &&& raised_error(*old(vm), e, *final(vm))
                &&& r == CallbackResult::Raise
            } else {
                &&& final(vm).stack@.len() == 1
                &&& (final(vm).stack@[0] matches Value::Str(t) && t@ == "stack overflow"@)
                &&& Vm::same_heap(*old(vm), *final(vm))
                &&& r == CallbackResult::Raise
            }
        },
        outcome matches CallbackOutcome::Panicked(p) ==> {
            if old(vm).capacity >= 2 {
                &&& raised_panic(*old(vm), p, *final(vm))
                &&& r == CallbackResult::Raise
            } else {
                &&& final(vm).stack@ =~= Seq::<Value>::empty()
                &&& Vm::same_heap(*old(vm), *final(vm))
                &&& r == CallbackResult::Abort(Fatal::PanicPropagationSpace)
            }
        },
{
    match outcome {
        CallbackOutcome::Success(n) => CallbackResult::Return(n),
        CallbackOutcome::Failure(e) => {
            vm.settop(0);
            if vm.check_space(2) {
                push_wrapped_error(vm, e);
                CallbackResult::Raise
            } else {
                vm.push(Value::Str(String::from_str("stack overflow")));
                CallbackResult::Raise
            }
        },
        CallbackOutcome::Panicked(p) => {
            vm.settop(0);
            if vm.check_space(2) {
                push_wrapped_panic(vm, p);
                CallbackResult::Raise
            } else {
                CallbackResult::Abort(Fatal::PanicPropagationSpace)
            }
        },
    }
}

/// Convert a host closure's outcome into the alternate calling protocol,
/// which reserves a distinct lightweight code for stack exhaustion.
///
/// [`Error::StackError`] takes that fast path untouched: reporting it must
/// stay cheap and must not itself risk running out of stack space.  Every
/// other typed failure is raised as an error envelope, falling back to the
/// lightweight code when there is no room for the envelope.  A captured
/// panic with no room to represent it is a fatal abort.
pub fn rust_callback_error(vm: &mut Vm, outcome: CallbackOutcome) -> (r: RCall)
    requires
        old(vm).wf(),
        old(vm).initialized(),
        old(vm).objects@.len() < usize::MAX,
    ensures
        final(vm).wf(),
        outcome matches CallbackOutcome::Success(n) ==> r == RCall::Return(n)
            && *final(vm) == *old(vm),
        outcome matches CallbackOutcome::Failure(e) ==> {
            if e is StackError {
                &&& r == RCall::StackErr
                &&& *final(vm) == *old(vm)
            } else if old(vm).capacity >= 2 {
                &&& raised_error(*old(vm), e, *final(vm))
                &&& r == RCall::RaiseErr
            } else {
                &&& final(vm).stack@ =~= Seq::<Value>::empty()
                &&& Vm::same_heap(*old(vm), *final(vm))
                &&& r == RCall::StackErr
            }
        },
        outcome matches CallbackOutcome::Panicked(p) ==> {
            if old(vm).capacity >= 2 {
                &&& raised_panic(*old(vm), p, *final(vm))
                &&& r == RCall::RaiseErr
            } else {
                &&& final(vm).stack@ =~= Seq::<Value>::empty()
                &&& Vm::same_heap(*old(vm), *final(vm))
                &&& r == RCall::Abort(Fatal::PanicPropagationSpace)
            }
        },
{
    match outcome {
        CallbackOutcome::Success(n) => RCall::Return(n),
        CallbackOutcome::Failure(Error::StackError) => RCall::StackErr,
        CallbackOutcome::Failure(e) => {
            vm.settop(0);
            if vm.check_space(2) {
                push_wrapped_error(vm, e);
                RCall::RaiseErr
            } else {
                RCall::StackErr
            }
        },
        CallbackOutcome::Panicked(p) => {
            vm.settop(0);
            if vm.check_space(2) {
                push_wrapped_panic(vm, p);
                RCall::RaiseErr
            } else {
                RCall::Abort(Fatal::PanicPropagationSpace)
            }
        },
    }
}

/// The finalizer the collector invokes on a foreign object: move the
/// payload back to the host (running its destructor exactly once) and leave
/// the slot permanently inert under the destructed sentinel tag.
pub fn userdata_destructor(vm: &mut Vm) -> (r: CallbackResult)
    requires
        old(vm).wf(),
        old(vm).initialized(),
        old(vm).depth() >= 1,
        old(vm).at(-1) is Foreign,
    ensures
        final(vm).wf(),
        r == CallbackResult::Return(0),
        final(vm).stack@ =~= old(vm).stack@.drop_last(),
        final(vm).objects@ =~= old(vm).objects@.update(
            foreign_id(old(vm).at(-1)),
            Object { tag: Some(old(vm).reg().destructed_tag), payload: Payload::Gone },
        ),
        final(vm).capacity == old(vm).capacity,
        final(vm).gc_running == old(vm).gc_running,
        final(vm).registry == old(vm).registry,
        final(vm).next_tag == old(vm).next_tag,
        final(vm).main_thread == old(vm).main_thread,
{
    let _taken = take_userdata(vm);
    CallbackResult::Return(0)
}

} // verus!
