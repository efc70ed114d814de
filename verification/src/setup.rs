//! One-time per-handle initialization of the three private type tags, the
//! destructed-object sentinel dispatch, and the error stringifier.

use vstd::prelude::*;
use crate::envelope::{get_userdata, wrapped_error_of};
use crate::errors::{error_text, Error};
use crate::gc::gc_guard;
use crate::stack::{check_stack, check_stack_err};
use crate::trampoline::{raised_error, rust_callback_error, CallbackOutcome, RCall};
use crate::value::{foreign_id, Capability, Payload, Value};
use crate::vm::{index_valid, Metatable, Registry, Vm};

verus! {

/// Every capability a type tag can intercept, each exactly once.
pub fn all_capabilities() -> (caps: Vec<Capability>)
    ensures
        forall|c: Capability| caps@.contains(c),
{
    let mut v: Vec<Capability> = Vec::new();
    v.push(Capability::Add);
    v.push(Capability::Subtract);
    v.push(Capability::Multiply);
    v.push(Capability::Divide);
    v.push(Capability::Modulo);
    v.push(Capability::Power);
    v.push(Capability::Negate);
    v.push(Capability::IntegerDivide);
    v.push(Capability::BitAnd);
    v.push(Capability::BitOr);
    v.push(Capability::BitXor);
    v.push(Capability::BitNot);
    v.push(Capability::ShiftLeft);
    v.push(Capability::ShiftRight);
    v.push(Capability::Concat);
    v.push(Capability::Length);
    v.push(Capability::Equals);
    v.push(Capability::LessThan);
    v.push(Capability::LessOrEqual);
    v.push(Capability::Index);
    v.push(Capability::NewIndex);
    v.push(Capability::Call);
    v.push(Capability::Stringify);
    v.push(Capability::Pairs);
    v.push(Capability::InversePairs);
    proof {
        assert forall|c: Capability| v@.contains(c) by {
            match c {
                Capability::Add => assert(v@[0] == c),
                Capability::Subtract => assert(v@[1] == c),
                Capability::Multiply => assert(v@[2] == c),
                Capability::Divide => assert(v@[3] == c),
                Capability::Modulo => assert(v@[4] == c),
                Capability::Power => assert(v@[5] == c),
                Capability::Negate => assert(v@[6] == c),
                Capability::IntegerDivide => assert(v@[7] == c),
                Capability::BitAnd => assert(v@[8] == c),
                Capability::BitOr => assert(v@[9] == c),
                Capability::BitXor => assert(v@[10] == c),
                Capability::BitNot => assert(v@[11] == c),
                Capability::ShiftLeft => assert(v@[12] == c),
                Capability::ShiftRight => assert(v@[13] == c),
                Capability::Concat => assert(v@[14] == c),
                Capability::Length => assert(v@[15] == c),
                Capability::Equals => assert(v@[16] == c),
                Capability::LessThan => assert(v@[17] == c),
                Capability::LessOrEqual => assert(v@[18] == c),
                Capability::Index => assert(v@[19] == c),
                Capability::NewIndex => assert(v@[20] == c),
                Capability::Call => assert(v@[21] == c),
                Capability::Stringify => assert(v@[22] == c),
                Capability::Pairs => assert(v@[23] == c),
                Capability::InversePairs => assert(v@[24] == c),
            }
        }
    }
    v
}

/// Register the per-handle singletons: the error, panic, and destructed
/// sentinel tags, each with what it intercepts.  Must run exactly once per
/// handle, before any envelope operation.
///
/// The error tag finalizes and stringifies its objects and is masked from
/// script code; the panic tag finalizes and is masked, but deliberately has
/// no textual form; the sentinel tag has no finalizer (the slot it guards
/// is already empty) and intercepts every capability with the uniform
/// destructed-object handler.
pub fn init_error_metatables(vm: &mut Vm)
    requires
        old(vm).wf(),
        !old(vm).initialized(),
        old(vm).depth() + 8 <= old(vm).capacity,
        old(vm).next_tag + 3 <= u64::MAX,
    ensures
        final(vm).wf(),
        final(vm).initialized(),
        final(vm).stack == old(vm).stack,
        final(vm).objects == old(vm).objects,
        final(vm).capacity == old(vm).capacity,
        final(vm).gc_running == old(vm).gc_running,
        final(vm).main_thread == old(vm).main_thread,
        final(vm).next_tag == old(vm).next_tag + 3,
        final(vm).reg().error_tag == old(vm).next_tag,
        final(vm).reg().panic_tag == old(vm).next_tag + 1,
        final(vm).reg().destructed_tag == old(vm).next_tag + 2,
        final(vm).reg().error_meta.finalizer,
        final(vm).reg().error_meta.stringifier,
        final(vm).reg().error_meta.protected,
        final(vm).reg().panic_meta.finalizer,
        !final(vm).reg().panic_meta.stringifier,
        final(vm).reg().panic_meta.protected,
        !final(vm).reg().destructed_meta.finalizer,
        forall|c: Capability| final(vm).reg().destructed_meta.intercepted@.contains(c),
{
    check_stack(vm, 8);
    let error_tag = vm.fresh_tag();
    let panic_tag = vm.fresh_tag();
    let destructed_tag = vm.fresh_tag();
    let caps = all_capabilities();
    let reg = Registry {
        error_tag,
        panic_tag,
        destructed_tag,
        error_meta: Metatable {
            finalizer: true,
            stringifier: true,
            protected: true,
            intercepted: Vec::new(),
        },
        panic_meta: Metatable {
            finalizer: true,
            stringifier: false,
            protected: true,
            intercepted: Vec::new(),
        },
        destructed_meta: Metatable {
            finalizer: false,
            stringifier: false,
            protected: false,
            intercepted: caps,
        },
    };
    vm.registry = Some(reg);
}

/// Whether the destructed sentinel intercepts `cap`.  It always does: the
/// sentinel's dispatch table is built over every capability.
pub fn capability_intercepted(vm: &Vm, cap: Capability) -> (b: bool)
    requires
        vm.wf(),
        vm.initialized(),
    ensures
        b == vm.reg().destructed_meta.intercepted@.contains(cap),
{
    match &vm.registry {
        Some(r) => {
            let caps = &r.destructed_meta.intercepted;
            let n = caps.len();
            let mut i: usize = 0;
            while i < n
                invariant
                    vm.wf(),
                    vm.initialized(),
                    caps@ =~= vm.reg().destructed_meta.intercepted@,
                    i <= n,
                    n == caps@.len(),
                    forall|j: int| 0 <= j < i ==> caps@[j] != cap,
                decreases n - i,
            {
                if caps[i] == cap {
                    return true;
                }
                i += 1;
            }
            false
        },
        None => {
            proof {
                assert(false);
            }
            false
        },
    }
}

/// The uniform handler behind every slot of the destructed sentinel: report
/// that the handle's native resource is gone.
pub fn destructed_error(vm: &mut Vm) -> (r: RCall)
    requires
        old(vm).wf(),
        old(vm).initialized(),
        old(vm).objects@.len() < usize::MAX,
    ensures
        final(vm).wf(),
        old(vm).capacity >= 2 ==> raised_error(
            *old(vm),
            Error::CallbackDestructed,
            *final(vm),
        ) && r == RCall::RaiseErr,
        old(vm).capacity < 2 ==> r == RCall::StackErr && final(vm).stack@ =~= Seq::<
            Value,
        >::empty() && Vm::same_heap(*old(vm), *final(vm)),
{
    rust_callback_error(vm, CallbackOutcome::Failure(Error::CallbackDestructed))
}

/// Script code performs an operation on a finalized foreign handle: the
/// sentinel installed at finalization time intercepts the capability and
/// answers with the uniform error.  The emptied slot itself is never read:
/// the object is left exactly as finalization left it.
pub fn invoke_capability(vm: &mut Vm, idx: i32, cap: Capability) -> (r: RCall)
    requires
        old(vm).wf(),
        old(vm).initialized(),
        index_valid(old(vm).depth() as int, idx as int),
        old(vm).at(idx as int) is Foreign,
        old(vm).objects@[foreign_id(old(vm).at(idx as int))].tag == Some(
            old(vm).reg().destructed_tag,
        ),
        old(vm).objects@.len() < usize::MAX,
    ensures
        final(vm).wf(),
        old(vm).capacity >= 2 ==> raised_error(
            *old(vm),
            Error::CallbackDestructed,
            *final(vm),
        ) && r == RCall::RaiseErr,
        old(vm).capacity < 2 ==> r == RCall::StackErr && final(vm).stack@ =~= Seq::<
            Value,
        >::empty() && Vm::same_heap(*old(vm), *final(vm)),
        final(vm).objects@[foreign_id(old(vm).at(idx as int))] == old(vm).objects@[foreign_id(
            old(vm).at(idx as int),
        )],
{
    let intercepted = capability_intercepted(vm, cap);
    assert(intercepted);
    destructed_error(vm)
}

/// Ask a wrapped error on top of the stack for its textual form, as the
/// stringifier slot of the error tag does.  The text replaces the envelope
/// on the stack; the string allocation runs with the collector suspended.
/// Insufficient stack budget takes the lightweight out-of-space path and
/// leaves everything untouched.
pub fn error_tostring(vm: &mut Vm) -> (r: RCall)
    requires
        old(vm).wf(),
        old(vm).initialized(),
        old(vm).depth() >= 1,
        old(vm).error_envelope_at(-1),
    ensures
        final(vm).wf(),
        old(vm).depth() + 2 > old(vm).capacity ==> r == RCall::StackErr && *final(vm) == *old(
            vm,
        ),
        old(vm).depth() + 2 <= old(vm).capacity ==> {
            &&& r == RCall::Return(1)
            &&& final(vm).stack@.len() == old(vm).stack@.len()
            &&& final(vm).stack@.drop_last() =~= old(vm).stack@.drop_last()
            &&& (final(vm).stack@.last() matches Value::Str(t) && t@ == error_text(
                wrapped_error_of(*old(vm), -1),
            ))
            &&& Vm::same_heap(*old(vm), *final(vm))
        },
{
    match check_stack_err(vm, 2) {
        Err(_) => RCall::StackErr,
        Ok(_) => {
            let e = match get_userdata(vm, -1) {
                Payload::WrappedError(e) => e.duplicate(),
                _ => {
                    proof {
                        assert(false);
                    }
                    Error::StackError
                },
            };
            let text = e.describe();
            let g = gc_guard(vm);
            vm.pop_value();
            vm.push(Value::Str(text));
            g.restore(vm);
            RCall::Return(1)
        },
    }
}

/// Recover the main thread's identity from the handle, as the registry
/// records it.
pub fn main_state(vm: &Vm) -> (t: u64)
    ensures
        t == vm.main_thread,
{
    vm.main_thread
}

} // verus!
