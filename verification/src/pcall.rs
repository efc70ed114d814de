//! The protected-call variants and the traceback formatter.
//!
//! Both variants let script code catch typed errors, but neither ever lets
//! it intercept a captured native panic: a panic envelope found in flight is
//! re-raised immediately, bypassing every script-visible convention, until
//! it is back under host control.
//!
//! Running the target callable is the machine's work; these functions take
//! how that run ended and produce the script-visible outcome.

use vstd::prelude::*;
use vstd::string::{StrSliceExecFns, StringExecFns};
use std::sync::Arc;
use crate::envelope::{
    is_wrapped_error, is_wrapped_panic, get_panic_metatable, pop_wrapped_error,
    push_wrapped_error, traceback_value_text, value_to_traceback_text,
};
use crate::errors::Error;
use crate::gc::gc_guard;
use crate::value::Value;
use crate::vm::Vm;

verus! {

/// How the machine's protected execution of the target callable ended.
pub enum CallOutcome {
    /// The callable ran to completion with these return values.
    Completed(Vec<Value>),
    /// The callable failed; this is the failure value the machine hands to
    /// the protected-call boundary (after message handling, if a handler
    /// was installed).
    Errored(Value),
}

/// What a protected-call variant tells the machine.
pub enum PcallResult {
    /// Return normally; the top `n` stack values are what script code sees.
    Return(usize),
    /// Re-raise the value on top of the stack through the machine's raw
    /// error transfer.
    Raise,
}

/// The message-handler step's decision for one in-flight failure.
pub enum MsghStep {
    /// The failure is a captured panic: hand it back untouched, bypassing
    /// the user's handler entirely.
    PassThroughPanic,
    /// An ordinary failure: let the user's message handler transform it.
    InvokeUserHandler,
}

/// Whether `v` references a panic envelope of `vm`.
pub open spec fn panic_envelope_value(vm: Vm, v: Value) -> bool {
    match v {
        Value::Foreign(id) => vm.obj_is_panic_envelope(id as int),
        _ => false,
    }
}

/// Whether every value of `o` keeps its object references inside `vm`'s
/// arena.
pub open spec fn call_outcome_ok(o: CallOutcome, vm: Vm) -> bool {
    match o {
        CallOutcome::Completed(vals) => forall|i: int|
            0 <= i < vals@.len() ==> (#[trigger] vals@[i]).ok_for(vm.objects@.len() as nat),
        CallOutcome::Errored(v) => v.ok_for(vm.objects@.len() as nat),
    }
}

/// Decide [`panic_envelope_value`] for a value in hand.
fn value_is_panic_envelope(vm: &Vm, v: &Value) -> (b: bool)
    requires
        vm.wf(),
        vm.initialized(),
        v.ok_for(vm.objects@.len() as nat),
    ensures
        b == panic_envelope_value(*vm, *v),
{
    match v {
        Value::Foreign(id) => {
            let id: usize = *id;
            match &vm.objects[id].tag {
                Some(t) => *t == get_panic_metatable(vm),
                None => false,
            }
        },
        _ => false,
    }
}

/// Push the values of `vals` in order.
fn push_values(vm: &mut Vm, vals: Vec<Value>)
    requires
        old(vm).wf(),
        old(vm).depth() + vals@.len() <= old(vm).capacity,
        forall|i: int|
            0 <= i < vals@.len() ==> (#[trigger] vals@[i]).ok_for(old(vm).objects@.len() as nat),
    ensures
        final(vm).wf(),
        final(vm).stack@ =~= old(vm).stack@ + vals@,
        Vm::same_heap(*old(vm), *final(vm)),
{
    let ghost all = vals@;
    let mut rest = vals;
    while rest.len() > 0
        invariant
            vm.wf(),
            Vm::same_heap(*old(vm), *vm),
            rest@.len() <= all.len(),
            rest@ =~= all.subrange(all.len() - rest@.len(), all.len() as int),
            vm.stack@ =~= old(vm).stack@ + all.subrange(0, all.len() - rest@.len()),
            old(vm).depth() + all.len() <= vm.capacity,
            forall|i: int| 0 <= i < all.len() ==> (#[trigger] all[i]).ok_for(vm.objects@.len() as nat),
        decreases rest@.len(),
    {
        let ghost k = all.len() - rest@.len();
        let v = rest.remove(0);
        proof {
            assert(v == all[k]);
        }
        vm.push(v);
        proof {
            assert(vm.stack@ =~= old(vm).stack@ + all.subrange(0, k + 1));
        }
    }
    proof {
        assert(vm.stack@ =~= old(vm).stack@ + all);
    }
}

/// The simple protected-call variant, as script code invokes it with the
/// callable and its arguments on the stack.
///
/// Entry first reserves the two slots the convention needs; when the frame
/// cannot grant them, the machine's own out-of-space failure is raised
/// instead.  With no callable at all, the conventional complaint is raised.
/// On completion, a true flag is prepended to the return values.  On
/// failure, a propagated panic is re-raised at once — script code never
/// sees it — while any other failure value becomes the script-visible false
/// flag followed by the value.
pub fn safe_pcall(vm: &mut Vm, outcome: CallOutcome) -> (r: PcallResult)
    requires
        old(vm).wf(),
        old(vm).initialized(),
        call_outcome_ok(outcome, *old(vm)),
        outcome matches CallOutcome::Completed(vals) ==> 1 + vals@.len() <= old(vm).capacity,
    ensures
        final(vm).wf(),
        Vm::same_heap(*old(vm), *final(vm)),
        old(vm).depth() + 2 > old(vm).capacity ==> {
            &&& r == PcallResult::Raise
            &&& final(vm).stack@.len() == 1
            &&& (final(vm).stack@[0] matches Value::Str(t) && t@ == "stack overflow"@)
        },
        old(vm).depth() + 2 <= old(vm).capacity && old(vm).depth() == 0 ==> {
            &&& r == PcallResult::Raise
            &&& final(vm).stack@.len() == 1
            &&& (final(vm).stack@[0] matches Value::Str(t) && t@
                == "not enough arguments to pcall"@)
        },
        old(vm).depth() + 2 <= old(vm).capacity && old(vm).depth() >= 1 ==> match outcome {
            CallOutcome::Completed(vals) => {
                &&& r == PcallResult::Return((1 + vals@.len()) as usize)
                &&& final(vm).stack@ =~= seq![Value::Boolean(true)] + vals@
            },
            CallOutcome::Errored(v) => {
                if panic_envelope_value(*old(vm), v) {
                    &&& r == PcallResult::Raise
                    &&& final(vm).stack@ =~= seq![v]
                } else {
                    &&& r == PcallResult::Return(2)
                    &&& final(vm).stack@ =~= seq![Value::Boolean(false), v]
                }
            },
        },
{
    if !vm.check_space(2) {
        vm.settop(0);
        vm.push(Value::Str(String::from_str("stack overflow")));
        return PcallResult::Raise;
    }
    let top = vm.top();
    if top == 0 {
        vm.push(Value::Str(String::from_str("not enough arguments to pcall")));
        return PcallResult::Raise;
    }
    match outcome {
        CallOutcome::Completed(vals) => {
            let n = vals.len();
            vm.settop(0);
            vm.push(Value::Boolean(true));
            push_values(vm, vals);
            PcallResult::Return(1 + n)
        },
        CallOutcome::Errored(v) => {
            vm.settop(0);
            let is_panic = value_is_panic_envelope(vm, &v);
            if is_panic {
                vm.push(v);
                PcallResult::Raise
            } else {
                vm.push(Value::Boolean(false));
                vm.push(v);
                PcallResult::Return(2)
            }
        },
    }
}

/// The message-handler step the handler-accepting variant installs around
/// the user's handler: it short-circuits on a captured panic, upholding the
/// guarantee that panics bypass all script-visible handling, and defers to
/// the user's handler on every other failure.
pub fn xpcall_msgh(vm: &Vm) -> (r: MsghStep)
    requires
        vm.wf(),
        vm.initialized(),
        vm.depth() >= 1,
    ensures
        r == MsghStep::PassThroughPanic <==> vm.panic_envelope_at(-1),
{
    if is_wrapped_panic(vm, -1) {
        MsghStep::PassThroughPanic
    } else {
        MsghStep::InvokeUserHandler
    }
}

/// The protected-call variant that accepts a user message handler, invoked
/// with the callable at the bottom, the handler above it, then the
/// arguments.  The handler value stays below the results, as the
/// convention has it.  `outcome` is how the protected run ended, its
/// failure value already transformed by the message-handler step — which
/// [`xpcall_msgh`] makes a no-op for panics.  As with [`safe_pcall`],
/// entry first reserves its two slots and raises the machine's
/// out-of-space failure when the frame cannot grant them.
pub fn safe_xpcall(vm: &mut Vm, outcome: CallOutcome) -> (r: PcallResult)
    requires
        old(vm).wf(),
        old(vm).initialized(),
        call_outcome_ok(outcome, *old(vm)),
        outcome matches CallOutcome::Completed(vals) ==> 2 + vals@.len() <= old(vm).capacity,
    ensures
        final(vm).wf(),
        Vm::same_heap(*old(vm), *final(vm)),
        old(vm).depth() + 2 > old(vm).capacity ==> {
            &&& r == PcallResult::Raise
            &&& final(vm).stack@.len() == 1
            &&& (final(vm).stack@[0] matches Value::Str(t) && t@ == "stack overflow"@)
        },
        old(vm).depth() + 2 <= old(vm).capacity && old(vm).depth() < 2 ==> {
            &&& r == PcallResult::Raise
            &&& final(vm).stack@.len() == old(vm).stack@.len() + 1
            &&& (final(vm).stack@.last() matches Value::Str(t) && t@
                == "not enough arguments to xpcall"@)
            &&& final(vm).stack@.drop_last() =~= old(vm).stack@
        },
        old(vm).depth() + 2 <= old(vm).capacity && old(vm).depth() >= 2 ==> match outcome {
            CallOutcome::Completed(vals) => {
                &&& r == PcallResult::Return((1 + vals@.len()) as usize)
                &&& final(vm).stack@ =~= seq![old(vm).stack@[1], Value::Boolean(true)] + vals@
            },
            CallOutcome::Errored(v) => {
                if panic_envelope_value(*old(vm), v) {
                    &&& r == PcallResult::Raise
                    &&& final(vm).stack@ =~= seq![old(vm).stack@[1], v]
                } else {
                    &&& r == PcallResult::Return(2)
                    &&& final(vm).stack@ =~= seq![old(vm).stack@[1], Value::Boolean(false), v]
                }
            },
        },
{
    if !vm.check_space(2) {
        vm.settop(0);
        vm.push(Value::Str(String::from_str("stack overflow")));
        return PcallResult::Raise;
    }
    let top = vm.top();
    if top < 2 {
        vm.push(Value::Str(String::from_str("not enough arguments to xpcall")));
        return PcallResult::Raise;
    }
    vm.settop(2);
    let handler = vm.pop_value();
    vm.settop(0);
    match outcome {
        CallOutcome::Completed(vals) => {
            let n = vals.len();
            vm.push(handler);
            vm.push(Value::Boolean(true));
            push_values(vm, vals);
            PcallResult::Return(1 + n)
        },
        CallOutcome::Errored(v) => {
            let is_panic = value_is_panic_envelope(vm, &v);
            vm.push(handler);
            if is_panic {
                vm.push(v);
                PcallResult::Raise
            } else {
                vm.push(Value::Boolean(false));
                vm.push(v);
                PcallResult::Return(2)
            }
        },
    }
}

/// The traceback formatter, used as the message handler of host-initiated
/// protected calls.  It runs with the in-flight failure as the only value
/// of its frame; `tb` is the text the machine's traceback generator
/// produced for the current frames.
///
/// A typed-error envelope is re-wrapped as a callback error carrying the
/// traceback and sharing the original as its cause; the traceback is
/// skipped (with a fixed note) when stack space is too tight to generate
/// one.  A machine-level failure value is replaced by its own text — the
/// traceback path's own placeholder when it has none — with the trace
/// appended.  A panic envelope passes through untouched: panics are
/// relayed, never reformatted.  With not even enough space to examine the
/// failure, nothing is done at all.
pub fn error_traceback(vm: &mut Vm, tb: &str) -> (r: i32)
    requires
        old(vm).wf(),
        old(vm).initialized(),
        old(vm).depth() == 1,
        old(vm).objects@.len() < usize::MAX,
    ensures
        final(vm).wf(),
        r == 1,
        old(vm).capacity < 3 ==> *final(vm) == *old(vm),
        old(vm).capacity >= 3 && old(vm).error_envelope_at(1) ==> {
            &&& final(vm).stack@ =~= seq![Value::Foreign(old(vm).objects@.len() as usize)]
            &&& final(vm).objects@.len() == old(vm).objects@.len() + 1
            &&& final(vm).objects@.subrange(0, old(vm).objects@.len() as int) =~= old(
                vm,
            ).objects@
            &&& final(vm).objects@.last().tag == Some(old(vm).reg().error_tag)
            &&& (final(vm).objects@.last().payload matches
                crate::value::Payload::WrappedError(e) && e matches Error::CallbackError {
                    traceback: t,
                    cause: c,
                } && c == crate::envelope::wrapped_error_of(*old(vm), 1) && t@ == (
                if old(vm).capacity >= 12 {
                    tb@
                } else {
                    "not enough stack space for traceback"@
                }))
            &&& final(vm).capacity == old(vm).capacity
            &&& final(vm).gc_running == old(vm).gc_running
            &&& final(vm).registry == old(vm).registry
            &&& final(vm).next_tag == old(vm).next_tag
            &&& final(vm).main_thread == old(vm).main_thread
        },
        old(vm).capacity >= 3 && old(vm).panic_envelope_at(1) ==> *final(vm) == *old(vm),
        (old(vm).capacity >= 3 && !old(vm).error_envelope_at(1) && !old(vm).panic_envelope_at(1))
            ==> {
            &&& Vm::same_heap(*old(vm), *final(vm))
            &&& if old(vm).capacity >= 12 {
                &&& final(vm).stack@.len() == 1
                &&& (final(vm).stack@[0] matches Value::Str(t) && t@ == traceback_value_text(
                    old(vm).at(1),
                ) + "\n"@ + tb@)
            } else {
                final(vm).stack@ =~= old(vm).stack@
            }
        },
{
    if !vm.check_space(2) {
        return 1;
    }
    if is_wrapped_error(vm, 1) {
        let ttext: String = if vm.check_space(11) {
            tb.to_owned()
        } else {
            String::from_str("not enough stack space for traceback")
        };
        let cause = match pop_wrapped_error(vm) {
            Some(e) => e,
            None => {
                proof {
                    assert(false);
                }
                Error::StackError
            },
        };
        push_wrapped_error(
            vm,
            Error::CallbackError { traceback: ttext, cause: Arc::new(cause) },
        );
        1
    } else if is_wrapped_panic(vm, 1) {
        1
    } else {
        if vm.check_space(11) {
            let g = gc_guard(vm);
            let text = value_to_traceback_text(vm.value_at(1));
            let combined = text.concat("\n").concat(tb);
            vm.pop_value();
            vm.push(Value::Str(combined));
            g.restore(vm);
        }
        1
    }
}

} // verus!
