use std::sync::Arc;
use vm_bridge::envelope::{
    get_userdata, has_eof_suffix, is_wrapped_error, is_wrapped_panic, make_table_tag,
    pop_error, pop_wrapped_error, push_string, push_userdata, push_wrapped_error,
    push_wrapped_panic, set_object_tag, take_userdata, ErrCode, PoppedFailure,
};
use vm_bridge::errors::{Error, Fatal};
use vm_bridge::setup::{all_capabilities, error_tostring, init_error_metatables, invoke_capability};
use vm_bridge::trampoline::{userdata_destructor, CallbackResult, RCall};
use vm_bridge::value::{PanicPayload, Payload, Value};
use vm_bridge::vm::Vm;

fn fresh_vm() -> Vm {
    let mut vm = Vm::new(100, 1);
    init_error_metatables(&mut vm);
    vm
}

fn every_error_variant() -> Vec<Error> {
    vec![
        Error::RuntimeError(String::from("boom")),
        Error::SyntaxError { message: String::from("bad token"), incomplete_input: false },
        Error::SyntaxError { message: String::from("ended at <eof>"), incomplete_input: true },
        Error::GarbageCollectorError(String::from("finalizer raised")),
        Error::StackError,
        Error::CallbackError {
            traceback: String::from("trace"),
            cause: Arc::new(Error::RuntimeError(String::from("inner"))),
        },
        Error::CallbackDestructed,
    ]
}

#[test]
fn wrap_then_unwrap_returns_equal_error() {
    for e in every_error_variant() {
        let mut vm = fresh_vm();
        push_wrapped_error(&mut vm, e.duplicate());
        let back = pop_wrapped_error(&mut vm).expect("the envelope must unwrap");
        assert!(back.same_as(&e), "the unwrapped error must equal the wrapped one");
        assert_eq!(vm.top(), 0, "the push/pop pair leaves the depth unchanged");
    }
}

#[test]
fn wrap_then_unwrap_preserves_surrounding_stack() {
    let mut vm = fresh_vm();
    vm.push(Value::Integer(11));
    vm.push(Value::Str(String::from("keep me")));
    push_wrapped_error(&mut vm, Error::StackError);
    let back = pop_wrapped_error(&mut vm);
    assert!(back.is_some());
    assert_eq!(vm.top(), 2);
    assert!(matches!(vm.value_at(1), Value::Integer(11)));
    assert!(matches!(vm.value_at(2), Value::Str(_)));
}

#[test]
fn unwrap_on_plain_value_returns_none_and_keeps_stack() {
    let mut vm = fresh_vm();
    vm.push(Value::Integer(3));
    assert!(pop_wrapped_error(&mut vm).is_none());
    assert_eq!(vm.top(), 1);
}

#[test]
fn unwrap_on_empty_stack_returns_none() {
    let mut vm = fresh_vm();
    assert!(pop_wrapped_error(&mut vm).is_none());
    assert_eq!(vm.top(), 0);
}

#[test]
fn forged_tag_never_passes_identity_check() {
    let mut vm = fresh_vm();
    push_userdata(&mut vm, Payload::Plain(5)).unwrap();
    let forged = make_table_tag(&mut vm);
    set_object_tag(&mut vm, -1, forged);
    assert!(!is_wrapped_error(&vm, -1), "a script-chosen tag must never look like an envelope");
    assert!(!is_wrapped_panic(&vm, -1));
}

#[test]
fn untagged_object_is_no_envelope() {
    let mut vm = fresh_vm();
    push_userdata(&mut vm, Payload::Plain(1)).unwrap();
    assert!(!is_wrapped_error(&vm, -1));
    assert!(!is_wrapped_panic(&vm, -1));
}

#[test]
fn identity_check_is_false_at_invalid_indices() {
    let vm = fresh_vm();
    assert!(!is_wrapped_error(&vm, 1));
    assert!(!is_wrapped_error(&vm, -1));
    assert!(!is_wrapped_error(&vm, 0));
}

#[test]
fn genuine_envelope_passes_identity_check() {
    let mut vm = fresh_vm();
    push_wrapped_error(&mut vm, Error::StackError);
    assert!(is_wrapped_error(&vm, -1));
    assert!(!is_wrapped_panic(&vm, -1));
    push_wrapped_panic(&mut vm, PanicPayload::new(String::from("p")));
    assert!(is_wrapped_panic(&vm, -1));
    assert!(!is_wrapped_error(&vm, -1));
}

#[test]
fn take_userdata_moves_payload_and_installs_sentinel() {
    let mut vm = fresh_vm();
    push_userdata(&mut vm, Payload::Plain(99)).unwrap();
    let taken = take_userdata(&mut vm);
    assert!(matches!(taken, Payload::Plain(99)));
    assert_eq!(vm.top(), 0);
    assert!(matches!(vm.objects[0].payload, Payload::Gone));
}

#[test]
fn destructed_handle_answers_every_capability_uniformly() {
    let mut vm = fresh_vm();
    push_userdata(&mut vm, Payload::Plain(7)).unwrap();
    let _ = take_userdata(&mut vm);
    for cap in all_capabilities() {
        vm.push(Value::Foreign(0));
        let r = invoke_capability(&mut vm, -1, cap);
        assert!(matches!(r, RCall::RaiseErr));
        let raised = pop_wrapped_error(&mut vm).expect("every capability raises an envelope");
        assert!(
            raised.same_as(&Error::CallbackDestructed),
            "every capability reports the same destructed-object error"
        );
        assert!(
            matches!(vm.objects[0].payload, Payload::Gone),
            "the emptied slot is never read or refilled"
        );
        vm.settop(0);
    }
}

#[test]
fn userdata_destructor_empties_the_slot_once() {
    let mut vm = fresh_vm();
    push_userdata(&mut vm, Payload::Plain(4)).unwrap();
    let r = userdata_destructor(&mut vm);
    assert!(matches!(r, CallbackResult::Return(0)));
    assert_eq!(vm.top(), 0);
    assert!(matches!(vm.objects[0].payload, Payload::Gone));
}

#[test]
fn pop_error_maps_runtime_code() {
    let mut vm = fresh_vm();
    push_string(&mut vm, "it broke").unwrap();
    match pop_error(&mut vm, ErrCode::Run) {
        PoppedFailure::Typed(Error::RuntimeError(m)) => assert_eq!(m, "it broke"),
        _ => panic!("a runtime code must map to the runtime error"),
    }
    assert_eq!(vm.top(), 0);
}

#[test]
fn pop_error_maps_error_handler_code_like_runtime() {
    let mut vm = fresh_vm();
    push_string(&mut vm, "handler trouble").unwrap();
    match pop_error(&mut vm, ErrCode::ErrorHandler) {
        PoppedFailure::Typed(Error::RuntimeError(m)) => assert_eq!(m, "handler trouble"),
        _ => panic!(),
    }
}

#[test]
fn pop_error_marks_incomplete_syntax_input() {
    let mut vm = fresh_vm();
    push_string(&mut vm, "unexpected end near <eof>").unwrap();
    match pop_error(&mut vm, ErrCode::Syntax) {
        PoppedFailure::Typed(Error::SyntaxError { message, incomplete_input }) => {
            assert_eq!(message, "unexpected end near <eof>");
            assert!(incomplete_input);
        }
        _ => panic!(),
    }
}

#[test]
fn pop_error_marks_complete_syntax_input() {
    let mut vm = fresh_vm();
    push_string(&mut vm, "unexpected symbol").unwrap();
    match pop_error(&mut vm, ErrCode::Syntax) {
        PoppedFailure::Typed(Error::SyntaxError { message, incomplete_input }) => {
            assert_eq!(message, "unexpected symbol");
            assert!(!incomplete_input);
        }
        _ => panic!(),
    }
}

#[test]
fn pop_error_maps_collector_code() {
    let mut vm = fresh_vm();
    push_string(&mut vm, "gc trouble").unwrap();
    match pop_error(&mut vm, ErrCode::Gc) {
        PoppedFailure::Typed(Error::GarbageCollectorError(m)) => assert_eq!(m, "gc trouble"),
        _ => panic!(),
    }
}

#[test]
fn pop_error_reports_allocation_failure_as_fatal() {
    let mut vm = fresh_vm();
    push_string(&mut vm, "out of memory").unwrap();
    assert!(matches!(
        pop_error(&mut vm, ErrCode::Memory),
        PoppedFailure::Abort(Fatal::AllocationFailed)
    ));
}

#[test]
fn pop_error_renders_integer_failure_values() {
    let mut vm = fresh_vm();
    vm.push(Value::Integer(42));
    match pop_error(&mut vm, ErrCode::Run) {
        PoppedFailure::Typed(Error::RuntimeError(m)) => assert_eq!(m, "42"),
        _ => panic!(),
    }
    vm.push(Value::Integer(-7));
    match pop_error(&mut vm, ErrCode::Run) {
        PoppedFailure::Typed(Error::RuntimeError(m)) => assert_eq!(m, "-7"),
        _ => panic!(),
    }
    vm.push(Value::Integer(i64::MIN));
    match pop_error(&mut vm, ErrCode::Run) {
        PoppedFailure::Typed(Error::RuntimeError(m)) => {
            assert_eq!(m, "-9223372036854775808")
        }
        _ => panic!(),
    }
}

#[test]
fn pop_error_reads_unprintable_values_as_such() {
    let mut vm = fresh_vm();
    vm.push(Value::Boolean(true));
    match pop_error(&mut vm, ErrCode::Run) {
        PoppedFailure::Typed(Error::RuntimeError(m)) => assert_eq!(m, "<unprintable error>"),
        _ => panic!(),
    }
}

#[test]
fn pop_error_returns_wrapped_error_directly() {
    let mut vm = fresh_vm();
    push_wrapped_error(&mut vm, Error::RuntimeError(String::from("typed")));
    match pop_error(&mut vm, ErrCode::Run) {
        PoppedFailure::Typed(Error::RuntimeError(m)) => assert_eq!(m, "typed"),
        _ => panic!(),
    }
    assert_eq!(vm.top(), 0);
}

#[test]
fn pop_error_hands_a_panic_back_exactly_once() {
    let mut vm = fresh_vm();
    push_wrapped_panic(&mut vm, PanicPayload::new(String::from("carried")));
    match pop_error(&mut vm, ErrCode::Run) {
        PoppedFailure::ResumePanic(p) => assert_eq!(p.message, "carried"),
        _ => panic!("the first extraction must hand the payload back"),
    }
    assert_eq!(vm.top(), 0);
    vm.push(Value::Foreign(0));
    assert!(matches!(
        pop_error(&mut vm, ErrCode::Run),
        PoppedFailure::Abort(Fatal::PanicResumedTwice)
    ));
}

#[test]
fn error_tostring_replaces_envelope_by_its_text() {
    let mut vm = fresh_vm();
    push_wrapped_error(&mut vm, Error::RuntimeError(String::from("bad input")));
    let r = error_tostring(&mut vm);
    assert!(matches!(r, RCall::Return(1)));
    assert_eq!(vm.top(), 1);
    match vm.value_at(-1) {
        Value::Str(s) => assert_eq!(s, "runtime error: bad input"),
        _ => panic!("the envelope must be replaced by its display text"),
    }
}

#[test]
fn error_tostring_takes_the_cheap_path_without_space() {
    let mut vm = Vm::new(8, 0);
    init_error_metatables(&mut vm);
    for i in 0..6 {
        vm.push(Value::Integer(i));
    }
    push_wrapped_error(&mut vm, Error::StackError);
    let r = error_tostring(&mut vm);
    assert!(matches!(r, RCall::StackErr));
    assert_eq!(vm.top(), 7, "nothing is touched on the cheap path");
    assert!(is_wrapped_error(&vm, -1));
}

#[test]
fn describe_gives_each_variant_its_text() {
    assert_eq!(Error::RuntimeError(String::from("x")).describe(), "runtime error: x");
    assert_eq!(
        Error::SyntaxError { message: String::from("y"), incomplete_input: true }.describe(),
        "syntax error: y"
    );
    assert_eq!(
        Error::GarbageCollectorError(String::from("z")).describe(),
        "garbage collector error: z"
    );
    assert_eq!(Error::StackError.describe(), "insufficient stack space");
    assert_eq!(
        Error::CallbackError {
            traceback: String::from("tb"),
            cause: Arc::new(Error::StackError),
        }
        .describe(),
        "callback error: tb"
    );
    assert_eq!(
        Error::CallbackDestructed.describe(),
        "a destructed foreign handle cannot be used"
    );
}

#[test]
fn same_as_compares_variant_message_and_cause() {
    let a = Error::RuntimeError(String::from("m"));
    assert!(a.same_as(&Error::RuntimeError(String::from("m"))));
    assert!(!a.same_as(&Error::RuntimeError(String::from("n"))));
    assert!(!a.same_as(&Error::StackError));
    let c1 = Error::CallbackError {
        traceback: String::from("t"),
        cause: Arc::new(Error::RuntimeError(String::from("deep"))),
    };
    let c2 = Error::CallbackError {
        traceback: String::from("t"),
        cause: Arc::new(Error::RuntimeError(String::from("deep"))),
    };
    let c3 = Error::CallbackError {
        traceback: String::from("t"),
        cause: Arc::new(Error::RuntimeError(String::from("other"))),
    };
    assert!(c1.same_as(&c2));
    assert!(!c1.same_as(&c3));
}

#[test]
fn eof_suffix_requires_the_exact_marker_at_the_end() {
    assert!(has_eof_suffix("ends <eof>"));
    assert!(has_eof_suffix("<eof>"));
    assert!(!has_eof_suffix("eof>"));
    assert!(!has_eof_suffix("x<eof>x"));
    assert!(!has_eof_suffix(""));
}

#[test]
fn push_string_puts_a_copy_on_top() {
    let mut vm = fresh_vm();
    push_string(&mut vm, "hello").unwrap();
    assert_eq!(vm.top(), 1);
    match vm.value_at(-1) {
        Value::Str(s) => assert_eq!(s, "hello"),
        _ => panic!(),
    }
}

#[test]
fn get_userdata_borrows_the_payload() {
    let mut vm = fresh_vm();
    push_userdata(&mut vm, Payload::Plain(123)).unwrap();
    assert!(matches!(get_userdata(&vm, -1), Payload::Plain(123)));
}
