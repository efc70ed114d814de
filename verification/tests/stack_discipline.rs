use vm_bridge::errors::{Error, Fatal};
use vm_bridge::gc::gc_guard;
use vm_bridge::setup::main_state;
use vm_bridge::stack::{check_stack, check_stack_err, stack_err_guard, stack_guard};
use vm_bridge::value::Value;
use vm_bridge::vm::Vm;

#[test]
fn check_stack_accepts_a_budget_that_fits() {
    let vm = Vm::new(5, 0);
    check_stack(&vm, 5);
}

#[test]
fn check_stack_err_reports_stack_error() {
    let vm = Vm::new(5, 0);
    assert!(check_stack_err(&vm, 5).is_ok());
    match check_stack_err(&vm, 6) {
        Err(Error::StackError) => {}
        _ => panic!("a growth request beyond capacity must yield the stack error"),
    }
}

#[test]
fn check_stack_err_counts_used_slots() {
    let mut vm = Vm::new(5, 0);
    vm.push(Value::Integer(1));
    vm.push(Value::Integer(2));
    assert!(check_stack_err(&vm, 3).is_ok());
    assert!(check_stack_err(&vm, 4).is_err());
}

#[test]
fn stack_guard_accepts_a_balanced_operation() {
    let mut vm = Vm::new(50, 0);
    vm.push(Value::Integer(10));
    let g = stack_guard(&vm, 2);
    vm.push(Value::Integer(20));
    vm.push(Value::Integer(30));
    let verdict = g.close(&mut vm);
    assert!(verdict.is_none());
    assert_eq!(vm.top(), 3);
}

#[test]
fn stack_guard_reports_a_miscounted_operation() {
    let mut vm = Vm::new(50, 0);
    let g = stack_guard(&vm, 1);
    vm.push(Value::Integer(1));
    vm.push(Value::Integer(2));
    let verdict = g.close(&mut vm);
    assert!(matches!(verdict, Some(Fatal::StackMismatch)));
    assert_eq!(vm.top(), 0, "the stack is cleared before the fatal verdict propagates");
}

#[test]
fn stack_err_guard_keeps_an_exact_success() {
    let mut vm = Vm::new(50, 0);
    let g = stack_err_guard(&vm, 1);
    vm.push(Value::Integer(5));
    let verdict = g.close(&mut vm, false);
    assert!(verdict.is_none());
    assert_eq!(vm.top(), 1);
}

#[test]
fn stack_err_guard_trims_error_residue() {
    let mut vm = Vm::new(50, 0);
    vm.push(Value::Integer(7));
    let g = stack_err_guard(&vm, 0);
    vm.push(Value::Integer(1));
    vm.push(Value::Integer(2));
    vm.push(Value::Integer(3));
    let verdict = g.close(&mut vm, true);
    assert!(verdict.is_none());
    assert_eq!(vm.top(), 1, "residue is trimmed down to the expected depth");
    assert!(matches!(vm.value_at(1), Value::Integer(7)));
}

#[test]
fn stack_err_guard_reports_overpopped_failure() {
    let mut vm = Vm::new(50, 0);
    vm.push(Value::Integer(1));
    vm.push(Value::Integer(2));
    let g = stack_err_guard(&vm, 0);
    vm.settop(0);
    let verdict = g.close(&mut vm, true);
    assert!(matches!(verdict, Some(Fatal::StackUnderflow)));
}

#[test]
fn stack_err_guard_reports_mismatch_on_success_path() {
    let mut vm = Vm::new(50, 0);
    let g = stack_err_guard(&vm, 0);
    vm.push(Value::Integer(1));
    let verdict = g.close(&mut vm, false);
    assert!(matches!(verdict, Some(Fatal::StackMismatch)));
    assert_eq!(vm.top(), 0);
}

#[test]
fn gc_guard_restores_a_running_collector() {
    let mut vm = Vm::new(50, 0);
    assert!(vm.gc_is_running());
    let g = gc_guard(&mut vm);
    assert!(!vm.gc_is_running(), "the collector is suspended inside the scope");
    vm.push(Value::Integer(1));
    g.restore(&mut vm);
    assert!(vm.gc_is_running(), "the collector runs again after the scope");
}

#[test]
fn gc_guard_leaves_a_stopped_collector_stopped() {
    let mut vm = Vm::new(50, 0);
    vm.gc_stop();
    let g = gc_guard(&mut vm);
    assert!(!vm.gc_is_running());
    g.restore(&mut vm);
    assert!(!vm.gc_is_running());
}

#[test]
fn main_state_recovers_the_main_thread_identity() {
    let vm = Vm::new(50, 42);
    assert_eq!(main_state(&vm), 42);
}
