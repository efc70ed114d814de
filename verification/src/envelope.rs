//! The error/panic envelope: foreign-owned opaque objects that carry a typed
//! error or a captured native panic through the machine as ordinary values.
//!
//! An envelope is recognized purely by tag identity against the registry's
//! private templates, never by name or shape, so script code cannot forge
//! one.  A panic payload is extractable exactly once; extracting it twice is
//! a fatal internal-invariant violation.

use vstd::prelude::*;
use vstd::string::{StrSliceExecFns, StringExecFns};
use crate::errors::{Error, Fatal};
use crate::gc::gc_guard;
use crate::value::{foreign_id, PanicPayload, Payload, Value};
use crate::vm::{index_valid, Object, Vm};

verus! {

/// The typed error inside the envelope at a one-based stack index.
pub open spec fn wrapped_error_of(vm: Vm, idx: int) -> Error
    recommends
        vm.error_envelope_at(idx),
{
    match vm.objects@[foreign_id(vm.at(idx))].payload {
        Payload::WrappedError(e) => e,
        _ => vstd::pervasive::arbitrary(),
    }
}

/// The extractable panic payload inside the envelope at a one-based stack
/// index, if it has not been extracted yet.
pub open spec fn wrapped_panic_of(vm: Vm, idx: int) -> Option<PanicPayload>
    recommends
        vm.panic_envelope_at(idx),
{
    match vm.objects@[foreign_id(vm.at(idx))].payload {
        Payload::WrappedPanic(p) => p,
        _ => vstd::pervasive::arbitrary(),
    }
}

/// What pushing an error envelope does: one fresh foreign object carrying
/// the error appears, tagged with the error template, and a reference to it
/// goes on top of the stack.  Nothing else changes; in particular the
/// collector flag is exactly what it was, the allocation having run with the
/// collector suspended.
pub open spec fn error_pushed(pre: Vm, e: Error, post: Vm) -> bool {
    &&& post.stack@ =~= pre.stack@.push(Value::Foreign(pre.objects@.len() as usize))
    &&& post.objects@ =~= pre.objects@.push(
        Object { tag: Some(pre.reg().error_tag), payload: Payload::WrappedError(e) },
    )
    &&& post.capacity == pre.capacity
    &&& post.gc_running == pre.gc_running
    &&& post.registry == pre.registry
    &&& post.next_tag == pre.next_tag
    &&& post.main_thread == pre.main_thread
}

/// What pushing a panic envelope does, analogously.
pub open spec fn panic_pushed(pre: Vm, p: PanicPayload, post: Vm) -> bool {
    &&& post.stack@ =~= pre.stack@.push(Value::Foreign(pre.objects@.len() as usize))
    &&& post.objects@ =~= pre.objects@.push(
        Object {
            tag: Some(pre.reg().panic_tag),
            payload: Payload::WrappedPanic(Some(p)),
        },
    )
    &&& post.capacity == pre.capacity
    &&& post.gc_running == pre.gc_running
    &&& post.registry == pre.registry
    &&& post.next_tag == pre.next_tag
    &&& post.main_thread == pre.main_thread
}

/// Read the registry's error tag template.
pub fn get_error_metatable(vm: &Vm) -> (t: u64)
    requires
        vm.wf(),
        vm.initialized(),
    ensures
        t == vm.reg().error_tag,
{
    match &vm.registry {
        Some(r) => r.error_tag,
        None => {
            proof {
                assert(false);
            }
            0
        },
    }
}

/// Read the registry's panic tag template.
pub fn get_panic_metatable(vm: &Vm) -> (t: u64)
    requires
        vm.wf(),
        vm.initialized(),
    ensures
        t == vm.reg().panic_tag,
{
    match &vm.registry {
        Some(r) => r.panic_tag,
        None => {
            proof {
                assert(false);
            }
            0
        },
    }
}

/// Read the registry's destructed-object sentinel tag.
pub fn get_destructed_userdata_metatable(vm: &Vm) -> (t: u64)
    requires
        vm.wf(),
        vm.initialized(),
    ensures
        t == vm.reg().destructed_tag,
{
    match &vm.registry {
        Some(r) => r.destructed_tag,
        None => {
            proof {
                assert(false);
            }
            0
        },
    }
}

/// Push a copy of `s` as a machine string.  Uses two stack slots of budget.
pub fn push_string(vm: &mut Vm, s: &str) -> (r: Result<(), Error>)
    requires
        old(vm).wf(),
        old(vm).depth() + 2 <= old(vm).capacity,
    ensures
        final(vm).wf(),
        r is Ok,
        final(vm).stack@.len() == old(vm).stack@.len() + 1,
        final(vm).stack@.subrange(0, old(vm).stack@.len() as int) =~= old(vm).stack@,
        (final(vm).stack@.last() matches Value::Str(t) && t@ == s@),
        Vm::same_heap(*old(vm), *final(vm)),
{
    vm.push(Value::Str(s.to_owned()));
    Ok(())
}

/// Hand a host payload to the machine as a fresh untagged foreign object.
/// Uses four stack slots of budget.
pub fn push_userdata(vm: &mut Vm, t: Payload) -> (r: Result<(), Error>)
    requires
        old(vm).wf(),
        old(vm).depth() + 4 <= old(vm).capacity,
        old(vm).objects@.len() < usize::MAX,
    ensures
        final(vm).wf(),
        r is Ok,
        final(vm).stack@ =~= old(vm).stack@.push(
            Value::Foreign(old(vm).objects@.len() as usize),
        ),
        final(vm).objects@ =~= old(vm).objects@.push(Object { tag: None, payload: t }),
        final(vm).capacity == old(vm).capacity,
        final(vm).gc_running == old(vm).gc_running,
        final(vm).registry == old(vm).registry,
        final(vm).next_tag == old(vm).next_tag,
        final(vm).main_thread == old(vm).main_thread,
{
    let id = vm.new_object(t);
    vm.push(Value::Foreign(id));
    Ok(())
}

/// Borrow the payload of the foreign object at a one-based index.  Calling
/// this on a value that is not a foreign object is an internal bug, so the
/// precondition demands it away.
pub fn get_userdata<'a>(vm: &'a Vm, idx: i32) -> (p: &'a Payload)
    requires
        vm.wf(),
        index_valid(vm.depth() as int, idx as int),
        vm.at(idx as int) is Foreign,
    ensures
        *p == vm.objects@[foreign_id(vm.at(idx as int))].payload,
{
    let id: usize = match vm.value_at(idx) {
        Value::Foreign(i) => *i,
        _ => {
            proof {
                assert(false);
            }
            0
        },
    };
    proof {
        assert(vm.stack@[crate::vm::resolve_index(vm.depth() as int, idx as int)].ok_for(
            vm.objects@.len() as nat,
        ));
    }
    &vm.objects[id].payload
}

/// Pop the foreign object on top of the stack and move its payload back to
/// the host, leaving the slot permanently inert: the destructed sentinel tag
/// is installed over the object's original tag, so every later operation on
/// the handle answers with a uniform error instead of touching the emptied
/// slot, and the payload's own destructor runs exactly once, on the moved
/// value.
pub fn take_userdata(vm: &mut Vm) -> (p: Payload)
    requires
        old(vm).wf(),
        old(vm).initialized(),
        old(vm).depth() >= 1,
        old(vm).at(-1) is Foreign,
    ensures
        final(vm).wf(),
        p == old(vm).objects@[foreign_id(old(vm).at(-1))].payload,
        final(vm).stack@ =~= old(vm).stack@.drop_last(),
        final(vm).objects@ =~= old(vm).objects@.update(
            foreign_id(old(vm).at(-1)),
            Object { tag: Some(old(vm).reg().destructed_tag), payload: Payload::Gone },
        ),
        final(vm).capacity == old(vm).capacity,
        final(vm).gc_running == old(vm).gc_running,
        final(vm).registry == old(vm).registry,
        final(vm).next_tag == old(vm).next_tag,
        final(vm).main_thread == old(vm).main_thread,
{
    let dt = get_destructed_userdata_metatable(vm);
    let id: usize = match vm.value_at(-1) {
        Value::Foreign(i) => *i,
        _ => {
            proof {
                assert(false);
            }
            0
        },
    };
    proof {
        assert(vm.stack@[crate::vm::resolve_index(vm.depth() as int, -1)].ok_for(
            vm.objects@.len() as nat,
        ));
    }
    vm.set_tag(id, dt);
    let mut taken = Payload::Gone;
    core::mem::swap(&mut vm.objects[id].payload, &mut taken);
    vm.pop_value();
    taken
}

/// Whether the value at a one-based index is an error envelope: it must be
/// a foreign object and its installed tag must be identity-equal to the
/// registry's error template.  A missing value, a plain value, an untagged
/// object, and any script-installed tag all answer no.
pub fn is_wrapped_error(vm: &Vm, idx: i32) -> (b: bool)
    requires
        vm.wf(),
        vm.initialized(),
    ensures
        b == vm.error_envelope_at(idx as int),
{
    let d = vm.top();
    let valid: bool = if idx > 0 {
        (idx as usize) <= d
    } else if idx < 0 {
        ((-(idx as i64)) as usize) <= d
    } else {
        false
    };
    if !valid {
        return false;
    }
    match vm.value_at(idx) {
        Value::Foreign(i) => {
            let id: usize = *i;
            proof {
                assert(vm.stack@[crate::vm::resolve_index(vm.depth() as int, idx as int)].ok_for(
                    vm.objects@.len() as nat,
                ));
            }
            match &vm.objects[id].tag {
                Some(t) => *t == get_error_metatable(vm),
                None => false,
            }
        },
        _ => false,
    }
}

/// Whether the value at a one-based index is a panic envelope, by the same
/// identity test against the panic template.
pub fn is_wrapped_panic(vm: &Vm, idx: i32) -> (b: bool)
    requires
        vm.wf(),
        vm.initialized(),
    ensures
        b == vm.panic_envelope_at(idx as int),
{
    let d = vm.top();
    let valid: bool = if idx > 0 {
        (idx as usize) <= d
    } else if idx < 0 {
        ((-(idx as i64)) as usize) <= d
    } else {
        false
    };
    if !valid {
        return false;
    }
    match vm.value_at(idx) {
        Value::Foreign(i) => {
            let id: usize = *i;
            proof {
                assert(vm.stack@[crate::vm::resolve_index(vm.depth() as int, idx as int)].ok_for(
                    vm.objects@.len() as nat,
                ));
            }
            match &vm.objects[id].tag {
                Some(t) => *t == get_panic_metatable(vm),
                None => false,
            }
        },
        _ => false,
    }
}

/// Wrap a typed error into an envelope on top of the stack.  The allocation
/// runs with the collector suspended, so no finalizer of an unrelated object
/// can raise while the error is being built.  Uses two stack slots of
/// budget.
pub fn push_wrapped_error(vm: &mut Vm, err: Error)
    requires
        old(vm).wf(),
        old(vm).initialized(),
        old(vm).depth() + 2 <= old(vm).capacity,
        old(vm).objects@.len() < usize::MAX,
    ensures
        final(vm).wf(),
        error_pushed(*old(vm), err, *final(vm)),
{
    let g = gc_guard(vm);
    let id = vm.new_object(Payload::WrappedError(err));
    vm.push(Value::Foreign(id));
    g.restore(vm);
    let tag = get_error_metatable(vm);
    vm.set_tag(id, tag);
}

/// Wrap a captured native panic into an envelope on top of the stack, with
/// the same allocation discipline.  Uses two stack slots of budget.
pub fn push_wrapped_panic(vm: &mut Vm, p: PanicPayload)
    requires
        old(vm).wf(),
        old(vm).initialized(),
        old(vm).depth() + 2 <= old(vm).capacity,
        old(vm).objects@.len() < usize::MAX,
    ensures
        final(vm).wf(),
        panic_pushed(*old(vm), p, *final(vm)),
{
    let g = gc_guard(vm);
    let id = vm.new_object(Payload::WrappedPanic(Some(p)));
    vm.push(Value::Foreign(id));
    g.restore(vm);
    let tag = get_panic_metatable(vm);
    vm.set_tag(id, tag);
}

/// What [`pop_wrapped_error`] guarantees: an error envelope on top comes
/// off the stack and hands out the error inside; anything else leaves the
/// machine untouched.
pub open spec fn pop_wrapped_error_post(pre: Vm, post: Vm, r: Option<Error>) -> bool {
    &&& pre.error_envelope_at(-1) ==> {
        &&& r == Some(wrapped_error_of(pre, -1))
        &&& post.stack@ =~= pre.stack@.drop_last()
        &&& Vm::same_heap(pre, post)
    }
    &&& !pre.error_envelope_at(-1) ==> r is None && post == pre
}

/// If the top of the stack is an error envelope, pop it and return a
/// duplicate of the error inside; otherwise return nothing and leave the
/// stack untouched.  Uses two stack slots of budget.
pub fn pop_wrapped_error(vm: &mut Vm) -> (r: Option<Error>)
    requires
        old(vm).wf(),
        old(vm).initialized(),
        old(vm).depth() + 2 <= old(vm).capacity,
    ensures
        final(vm).wf(),
        pop_wrapped_error_post(*old(vm), *final(vm), r),
{
    if !is_wrapped_error(vm, -1) {
        None
    } else {
        let e = match get_userdata(vm, -1) {
            Payload::WrappedError(e) => e.duplicate(),
            _ => {
                proof {
                    assert(false);
                }
                Error::StackError
            },
        };
        vm.pop_value();
        Some(e)
    }
}

/// Create a fresh tag, as script code does when it builds a dispatch table
/// of its own.  Freshness makes the result distinct from every tag ever
/// handed out — in particular from all three registry templates, which is
/// what makes the envelope identity check unforgeable.
pub fn make_table_tag(vm: &mut Vm) -> (t: u64)
    requires
        old(vm).wf(),
        old(vm).next_tag < u64::MAX,
    ensures
        final(vm).wf(),
        t == old(vm).next_tag,
        final(vm).next_tag == old(vm).next_tag + 1,
        final(vm).stack == old(vm).stack,
        final(vm).objects == old(vm).objects,
        final(vm).capacity == old(vm).capacity,
        final(vm).gc_running == old(vm).gc_running,
        final(vm).registry == old(vm).registry,
        final(vm).main_thread == old(vm).main_thread,
        old(vm).initialized() ==> {
            &&& t != old(vm).reg().error_tag
            &&& t != old(vm).reg().panic_tag
            &&& t != old(vm).reg().destructed_tag
        },
{
    vm.fresh_tag()
}

/// Install a tag on the foreign object at a one-based index, as script code
/// does when it attaches a dispatch table of its own.  Script code can only
/// install tags it can reach, and the registry's envelope templates are
/// masked from it (`protected`), never exposed by name or otherwise; the
/// precondition records exactly that exposure boundary.
pub fn set_object_tag(vm: &mut Vm, idx: i32, tag: u64)
    requires
        old(vm).wf(),
        index_valid(old(vm).depth() as int, idx as int),
        old(vm).at(idx as int) is Foreign,
        tag < old(vm).next_tag,
        old(vm).initialized() ==> tag != old(vm).reg().error_tag && tag != old(
            vm,
        ).reg().panic_tag,
    ensures
        final(vm).wf(),
        final(vm).objects@ =~= old(vm).objects@.update(
            foreign_id(old(vm).at(idx as int)),
            Object {
                tag: Some(tag),
                payload: old(vm).objects@[foreign_id(old(vm).at(idx as int))].payload,
            },
        ),
        final(vm).stack == old(vm).stack,
        final(vm).capacity == old(vm).capacity,
        final(vm).gc_running == old(vm).gc_running,
        final(vm).registry == old(vm).registry,
        final(vm).next_tag == old(vm).next_tag,
        final(vm).main_thread == old(vm).main_thread,
{
    let id: usize = match vm.value_at(idx) {
        Value::Foreign(i) => *i,
        _ => {
            proof {
                assert(false);
            }
            0
        },
    };
    proof {
        assert(vm.stack@[crate::vm::resolve_index(vm.depth() as int, idx as int)].ok_for(
            vm.objects@.len() as nat,
        ));
    }
    vm.set_tag(id, tag);
}

/// The failure codes the machine's protected-call primitive can report.
/// The primitive never hands its success codes to [`pop_error`]; calling it
/// without an actual failure is an internal bug, which the enumeration
/// rules out by construction.
pub enum ErrCode {
    /// A runtime failure while executing script code.
    Run,
    /// A failure while compiling script source.
    Syntax,
    /// A failure in the machine's own error handling.  The machine reports
    /// it in specific stack-overflow situations; it carries no more
    /// information than a runtime failure and is treated the same way.
    ErrorHandler,
    /// An allocation failure.  The embedding installs an allocator that
    /// aborts instead of failing, so this code indicates a broken
    /// environment and is fatal.
    Memory,
    /// A failure raised from a finalizer while collecting.
    Gc,
}

/// What popping an in-flight failure hands back to the host.
pub enum PoppedFailure {
    /// A typed error, ready for host-side handling.
    Typed(Error),
    /// A captured native panic.  The host must resume unwinding with this
    /// payload once outside machine control; the envelope's extraction flag
    /// is now spent.
    ResumePanic(PanicPayload),
    /// A fatal internal-invariant violation; the embedding aborts.
    Abort(Fatal),
}

/// The character for one decimal digit.
pub open spec fn digit_char(d: nat) -> char {
    if d == 0 {
        '0'
    } else if d == 1 {
        '1'
    } else if d == 2 {
        '2'
    } else if d == 3 {
        '3'
    } else if d == 4 {
        '4'
    } else if d == 5 {
        '5'
    } else if d == 6 {
        '6'
    } else if d == 7 {
        '7'
    } else if d == 8 {
        '8'
    } else {
        '9'
    }
}

/// The decimal digits of a natural number, most significant first.
pub open spec fn dec_digits(n: nat) -> Seq<char>
    decreases n,
{
    if n < 10 {
        seq![digit_char(n)]
    } else {
        dec_digits(n / 10) + seq![digit_char(n % 10)]
    }
}

/// The decimal text of an integer.
pub open spec fn int_text(n: int) -> Seq<char> {
    if n >= 0 {
        dec_digits(n as nat)
    } else {
        seq!['-'] + dec_digits((-n) as nat)
    }
}

/// One decimal digit as text.
fn digit_str(d: u64) -> (r: &'static str)
    requires
        d < 10,
    ensures
        r@ =~= seq![digit_char(d as nat)],
{
    proof {
        reveal_strlit("0");
        reveal_strlit("1");
        reveal_strlit("2");
        reveal_strlit("3");
        reveal_strlit("4");
        reveal_strlit("5");
        reveal_strlit("6");
        reveal_strlit("7");
        reveal_strlit("8");
        reveal_strlit("9");
    }
    match d {
        0 => "0",
        1 => "1",
        2 => "2",
        3 => "3",
        4 => "4",
        5 => "5",
        6 => "6",
        7 => "7",
        8 => "8",
        _ => "9",
    }
}

/// Append the decimal digits of `m`, most significant first.
fn append_dec_digits(s: &mut String, m: u64)
    ensures
        final(s)@ =~= old(s)@ + dec_digits(m as nat),
    decreases m,
{
    if m < 10 {
        s.append(digit_str(m));
    } else {
        append_dec_digits(s, m / 10);
        let ghost before = s@;
        s.append(digit_str(m % 10));
        proof {
            assert(s@ =~= old(s)@ + dec_digits(m as nat));
        }
    }
}

/// The decimal text of an integer, deciding [`int_text`].
fn integer_text(n: i64) -> (s: String)
    ensures
        s@ =~= int_text(n as int),
{
    let mut s = String::new();
    if n >= 0 {
        append_dec_digits(&mut s, n as u64);
    } else {
        s.append("-");
        proof {
            reveal_strlit("-");
        }
        let m: u64 = if n == i64::MIN {
            9223372036854775808
        } else {
            (-n) as u64
        };
        append_dec_digits(&mut s, m);
        proof {
            assert(m as int == -(n as int));
            assert(s@ =~= seq!['-'] + dec_digits(m as nat));
        }
    }
    s
}

/// The textual form of a machine value, as [`pop_error`] reads it: the text
/// of a string value, the decimal rendering of an integer value; every
/// other value is unprintable.
pub open spec fn value_text(v: Value) -> Seq<char> {
    match v {
        Value::Str(s) => s@,
        Value::Integer(n) => int_text(n as int),
        _ => "<unprintable error>"@,
    }
}

/// The textual form the traceback path reads, with its own distinct
/// placeholder for a value that has no text.
pub open spec fn traceback_value_text(v: Value) -> Seq<char> {
    match v {
        Value::Str(s) => s@,
        Value::Integer(n) => int_text(n as int),
        _ => "<unprintable lua error>"@,
    }
}

/// Whether the text ends in the marker the machine appends to a syntax
/// error whose source merely ended too early.
pub open spec fn eof_suffix(s: Seq<char>) -> bool {
    &&& s.len() >= 5
    &&& s[s.len() as int - 5] == '<'
    &&& s[s.len() as int - 4] == 'e'
    &&& s[s.len() as int - 3] == 'o'
    &&& s[s.len() as int - 2] == 'f'
    &&& s[s.len() as int - 1] == '>'
}

/// Decide [`eof_suffix`] on a string slice.
pub fn has_eof_suffix(s: &str) -> (b: bool)
    ensures
        b == eof_suffix(s@),
{
    let n = s.unicode_len();
    if n < 5 {
        false
    } else {
        s.get_char(n - 5) == '<' && s.get_char(n - 4) == 'e' && s.get_char(n - 3) == 'o'
            && s.get_char(n - 2) == 'f' && s.get_char(n - 1) == '>'
    }
}

/// The textual form of a machine value, deciding [`value_text`].
pub fn value_to_text(v: &Value) -> (s: String)
    ensures
        s@ == value_text(*v),
{
    let s = match v {
        Value::Str(s) => s.clone(),
        Value::Integer(n) => integer_text(*n),
        _ => String::from_str("<unprintable error>"),
    };
    proof {
        assert(s@ =~= value_text(*v));
    }
    s
}

/// The traceback path's textual form, deciding [`traceback_value_text`].
pub fn value_to_traceback_text(v: &Value) -> (s: String)
    ensures
        s@ == traceback_value_text(*v),
{
    let s = match v {
        Value::Str(s) => s.clone(),
        Value::Integer(n) => integer_text(*n),
        _ => String::from_str("<unprintable lua error>"),
    };
    proof {
        assert(s@ =~= traceback_value_text(*v));
    }
    s
}

/// What the non-envelope branch of [`pop_error`] returns: the machine-level
/// failure value's text, mapped through the reported code.
pub open spec fn code_mapped(code: ErrCode, text: Seq<char>, r: PoppedFailure) -> bool {
    match code {
        ErrCode::Run => (r matches PoppedFailure::Typed(Error::RuntimeError(m)) && m@ == text),
        ErrCode::ErrorHandler => (r matches PoppedFailure::Typed(Error::RuntimeError(m)) && m@
            == text),
        ErrCode::Syntax => (r matches PoppedFailure::Typed(
            Error::SyntaxError { message: m, incomplete_input: i },
        ) && m@ == text && i == eof_suffix(text)),
        ErrCode::Gc => (r matches PoppedFailure::Typed(Error::GarbageCollectorError(m)) && m@
            == text),
        ErrCode::Memory => r == PoppedFailure::Abort(Fatal::AllocationFailed),
    }
}

/// Pop the in-flight failure from the top of the stack.
///
/// An error envelope yields the typed error inside.  A panic envelope
/// yields its payload for the host to resume, clearing the stack and
/// spending the envelope's exactly-once extraction flag; if the flag is
/// already spent, the violation is fatal.  Any other value is the machine's
/// own failure value: its text is read with the collector suspended, and
/// the reported code picks the error variant.  Uses two stack slots of
/// budget.
pub fn pop_error(vm: &mut Vm, err_code: ErrCode) -> (r: PoppedFailure)
    requires
        old(vm).wf(),
        old(vm).initialized(),
        old(vm).depth() >= 1,
        old(vm).depth() + 2 <= old(vm).capacity,
    ensures
        final(vm).wf(),
        old(vm).error_envelope_at(-1) ==> {
            &&& r == PoppedFailure::Typed(wrapped_error_of(*old(vm), -1))
            &&& final(vm).stack@ =~= old(vm).stack@.drop_last()
            &&& Vm::same_heap(*old(vm), *final(vm))
        },
        (!old(vm).error_envelope_at(-1) && old(vm).panic_envelope_at(-1)) ==> {
            &&& final(vm).stack@ =~= Seq::<Value>::empty()
            &&& final(vm).capacity == old(vm).capacity
            &&& final(vm).gc_running == old(vm).gc_running
            &&& final(vm).registry == old(vm).registry
            &&& final(vm).next_tag == old(vm).next_tag
            &&& final(vm).main_thread == old(vm).main_thread
            &&& match wrapped_panic_of(*old(vm), -1) {
                Some(p) => {
                    &&& r == PoppedFailure::ResumePanic(p)
                    &&& final(vm).objects@ =~= old(vm).objects@.update(
                        foreign_id(old(vm).at(-1)),
                        Object {
                            tag: old(vm).objects@[foreign_id(old(vm).at(-1))].tag,
                            payload: Payload::WrappedPanic(None),
                        },
                    )
                },
                None => {
                    &&& r == PoppedFailure::Abort(Fatal::PanicResumedTwice)
                    &&& final(vm).objects@ =~= old(vm).objects@
                },
            }
        },
        (!old(vm).error_envelope_at(-1) && !old(vm).panic_envelope_at(-1)) ==> {
            &&& code_mapped(err_code, value_text(old(vm).at(-1)), r)
            &&& final(vm).stack@ =~= old(vm).stack@.drop_last()
            &&& Vm::same_heap(*old(vm), *final(vm))
        },
{
    let popped = pop_wrapped_error(vm);
    match popped {
        Some(err) => PoppedFailure::Typed(err),
        None => {
            if is_wrapped_panic(vm, -1) {
                let id: usize = match vm.value_at(-1) {
                    Value::Foreign(i) => *i,
                    _ => {
                        proof {
                            assert(false);
                        }
                        0
                    },
                };
                proof {
                    assert(vm.stack@[crate::vm::resolve_index(vm.depth() as int, -1)].ok_for(
                        vm.objects@.len() as nat,
                    ));
                }
                let mut slot = Payload::WrappedPanic(None);
                core::mem::swap(&mut vm.objects[id].payload, &mut slot);
                match slot {
                    Payload::WrappedPanic(Some(p)) => {
                        vm.settop(0);
                        PoppedFailure::ResumePanic(p)
                    },
                    Payload::WrappedPanic(None) => {
                        proof {
                            assert(vm.objects@ =~= old(vm).objects@);
                        }
                        vm.settop(0);
                        PoppedFailure::Abort(Fatal::PanicResumedTwice)
                    },
                    _ => {
                        proof {
                            assert(false);
                        }
                        PoppedFailure::Abort(Fatal::PanicResumedTwice)
                    },
                }
            } else {
                let g = gc_guard(vm);
                let text = value_to_text(vm.value_at(-1));
                g.restore(vm);
                vm.pop_value();
                match err_code {
                    ErrCode::Run => PoppedFailure::Typed(Error::RuntimeError(text)),
                    ErrCode::ErrorHandler => PoppedFailure::Typed(Error::RuntimeError(text)),
                    ErrCode::Syntax => {
                        let incomplete = has_eof_suffix(text.as_str());
                        PoppedFailure::Typed(
                            Error::SyntaxError { message: text, incomplete_input: incomplete },
                        )
                    },
                    ErrCode::Gc => PoppedFailure::Typed(Error::GarbageCollectorError(text)),
                    ErrCode::Memory => PoppedFailure::Abort(Fatal::AllocationFailed),
                }
            }
        },
    }
}

} // verus!
