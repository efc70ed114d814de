//! Scoped collector suspension.
//!
//! Error construction allocates foreign objects; were the collector running,
//! finalizers of unrelated objects could raise during that window and shadow
//! the error being built.  The guard stops the collector on entry and
//! restarts it on exit if and only if it was running before.  The wrapped
//! operation must not itself fail through the machine's non-local transfer,
//! or the restart would be skipped; that is a documented caller obligation,
//! which the restart precondition records.

use vstd::prelude::*;
use crate::vm::Vm;

verus! {

/// An open collector-suspension scope.  Holds what must be restored.
pub struct GcGuard {
    /// Whether the collector was running when the scope opened.
    pub was_running: bool,
}

/// Open a collector-suspension scope: if the collector is running, stop it.
pub fn gc_guard(vm: &mut Vm) -> (g: GcGuard)
    ensures
        g.was_running == old(vm).gc_running,
        *final(vm) == (Vm { gc_running: false, ..*old(vm) }),
{
    let was = vm.gc_is_running();
    if was {
        vm.gc_stop();
    }
    GcGuard { was_running: was }
}

impl GcGuard {
    /// Close the scope: restart the collector exactly when it was running
    /// before.  The wrapped operation must not have restarted the collector
    /// itself.
    pub fn restore(self, vm: &mut Vm)
        requires
            !old(vm).gc_running,
        ensures
            *final(vm) == (Vm { gc_running: self.was_running, ..*old(vm) }),
    {
        if self.was_running {
            vm.gc_restart();
        }
    }
}

} // verus!
