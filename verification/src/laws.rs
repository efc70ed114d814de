//! The library-wide guarantees, stated once and proved from the contracts
//! the rest of the crate establishes.

use vstd::prelude::*;
use crate::envelope::{
    error_pushed, pop_wrapped_error_post, wrapped_error_of, wrapped_panic_of,
};
use crate::errors::{Error, Fatal};
use crate::pcall::panic_envelope_value;
use crate::stack::err_guard_close_post;
use crate::trampoline::raised_panic;
use crate::value::{foreign_id, Capability, PanicPayload, Value};
use crate::vm::{index_valid, Vm};

verus! {

/// Stack balance: an operation declared with delta `change`, run on a
/// machine at depth `D` under a depth-accounting scope, leaves depth exactly
/// `D + change` whenever the scope closes without a fatal verdict — on
/// success because the depth matched, on failure because error-path residue
/// was trimmed down to it (the operation having left at least that much).
pub proof fn lemma_stack_balance(
    pre: Vm,
    change: int,
    mid: Vm,
    post: Vm,
    failed: bool,
    verdict: Option<Fatal>,
)
    requires
        pre.wf(),
        0 <= pre.depth() + change,
        err_guard_close_post((pre.depth() + change) as nat, failed, mid, post, verdict),
    ensures
        verdict is None ==> post.depth() == pre.depth() + change,
        verdict is None && failed ==> mid.depth() >= pre.depth() + change,
        verdict is None && !failed ==> mid.depth() == pre.depth() + change,
{
}

/// Envelope round-trip: wrapping any error and immediately unwrapping it
/// hands back exactly that error, and the push/pop pair leaves the stack as
/// it was.
pub proof fn lemma_envelope_round_trip(
    pre: Vm,
    e: Error,
    mid: Vm,
    post: Vm,
    r: Option<Error>,
)
    requires
        pre.wf(),
        pre.initialized(),
        pre.objects@.len() < usize::MAX,
        error_pushed(pre, e, mid),
        pop_wrapped_error_post(mid, post, r),
    ensures
        r == Some(e),
        post.stack@ =~= pre.stack@,
        post.depth() == pre.depth(),
{
    let n = pre.objects@.len() as int;
    assert(mid.stack@.len() == pre.stack@.len() + 1);
    assert(mid.at(-1) == mid.stack@.last());
    assert(mid.stack@.last() == Value::Foreign(pre.objects@.len() as usize));
    assert(foreign_id(mid.at(-1)) == n);
    assert(mid.objects@[n].tag == Some(pre.reg().error_tag));
    assert(mid.reg() == pre.reg());
    assert(mid.error_envelope_at(-1));
    assert(wrapped_error_of(mid, -1) == e);
    assert(post.stack@ =~= pre.stack@);
}

/// Tag forgery resistance: a foreign object whose installed tag is anything
/// but the registry's private error template — in particular any tag script
/// code can reach, all of which are fresh-sourced after the templates —
/// never satisfies the envelope identity check, whatever its payload looks
/// like.
pub proof fn lemma_tag_forgery_resistance(vm: Vm, idx: int)
    requires
        vm.wf(),
        vm.initialized(),
        index_valid(vm.depth() as int, idx),
        vm.at(idx) is Foreign,
        vm.objects@[foreign_id(vm.at(idx))].tag != Some(vm.reg().error_tag),
        vm.objects@[foreign_id(vm.at(idx))].tag != Some(vm.reg().panic_tag),
    ensures
        !vm.error_envelope_at(idx),
        !vm.panic_envelope_at(idx),
{
}

/// Destructed sentinel uniformity: the sentinel intercepts every
/// capability, and whichever capability script code invokes on a finalized
/// handle, the observable outcome is one and the same — a raised envelope
/// wrapping the destructed-object error — while every pre-existing arena
/// slot, the emptied one included, is left untouched and unread.
pub proof fn lemma_destructed_sentinel_uniformity(pre: Vm, post1: Vm, post2: Vm)
    requires
        pre.wf(),
        pre.initialized(),
        crate::trampoline::raised_error(pre, Error::CallbackDestructed, post1),
        crate::trampoline::raised_error(pre, Error::CallbackDestructed, post2),
    ensures
        forall|c: Capability| pre.reg().destructed_meta.intercepted@.contains(c),
        post1.stack@ =~= post2.stack@,
        post1.objects@ =~= post2.objects@,
        forall|id: int|
            0 <= id < pre.objects@.len() ==> post1.objects@[id] == pre.objects@[id],
{
}

/// Panic opacity: a captured panic raised through the machine is carried by
/// a panic envelope that the typed-error unwrap never recognizes, that a
/// protected call re-raises rather than converting into the script-visible
/// failure convention, and that still holds exactly the captured payload
/// when it reaches the host again.
pub proof fn lemma_panic_opacity(pre: Vm, p: PanicPayload, post: Vm)
    requires
        pre.wf(),
        pre.initialized(),
        pre.objects@.len() < usize::MAX,
        raised_panic(pre, p, post),
    ensures
        post.panic_envelope_at(-1),
        !post.error_envelope_at(-1),
        panic_envelope_value(post, post.stack@[0]),
        wrapped_panic_of(post, -1) == Some(p),
{
    let n = pre.objects@.len() as int;
    assert(post.stack@.len() == 1);
    assert(post.at(-1) == post.stack@[0]);
    assert(post.stack@[0] == Value::Foreign(pre.objects@.len() as usize));
    assert(foreign_id(post.at(-1)) == n);
    assert(post.objects@[n].tag == Some(pre.reg().panic_tag));
    assert(post.reg() == pre.reg());
    assert(pre.reg().panic_tag != pre.reg().error_tag);
}

/// Collector suspension correctness: whatever state the collector was in
/// when a suspension scope opened, it is in that state again once the scope
/// closes, on every exit path — provided the wrapped operation neither
/// failed through the machine's non-local transfer nor restarted the
/// collector itself, which is the guard's documented caller obligation.
pub proof fn lemma_gc_suspension(pre: Vm, was_running: bool, mid: Vm, post: Vm)
    requires
        was_running == pre.gc_running,
        !mid.gc_running,
        post == (Vm { gc_running: was_running, ..mid }),
    ensures
        post.gc_running == pre.gc_running,
{
}

} // verus!
