//! The machine boundary as plain data: the value stack, the foreign-object
//! arena, the registry-held type tags, and the collector flag.
//!
//! The interpreter itself (bytecode execution, compilation, collection) is an
//! external collaborator; this module models only the state that the core's
//! operations read and write, so that their stack and tag discipline can be
//! verified.

use vstd::prelude::*;
use crate::value::{Capability, Payload, Value};

verus! {

/// The largest stack any handle will grant.  Growth requests beyond the
/// handle's capacity fail; capacities beyond this bound do not occur.
pub const MAX_STACK: usize = 1000000;

/// One slot of the foreign-object arena: an optional type tag and the stored
/// payload.  An object with no tag answers no capability.
pub struct Object {
    pub tag: Option<u64>,
    pub payload: Payload,
}

/// What a registered type tag intercepts.
pub struct Metatable {
    /// A finalizer runs when the collector reclaims an object of this tag.
    pub finalizer: bool,
    /// Script code may ask for a textual form.
    pub stringifier: bool,
    /// The tag template is masked from script code, so it cannot be read out
    /// and reused.
    pub protected: bool,
    /// Capabilities answered by the uniform destructed-object handler.
    pub intercepted: Vec<Capability>,
}

/// The registry-held singletons, created once per machine handle: the three
/// private tag templates and what each intercepts.  Identity of a tag is the
/// number itself; the templates are never exposed to script code.
pub struct Registry {
    pub error_tag: u64,
    pub panic_tag: u64,
    pub destructed_tag: u64,
    pub error_meta: Metatable,
    pub panic_meta: Metatable,
    pub destructed_meta: Metatable,
}

/// One machine handle: the shared value stack, the foreign-object arena, the
/// registry, and the collector flag.  All access is single-threaded by the
/// machine's own execution model.
pub struct Vm {
    /// The value stack of the current frame, bottom first.
    pub stack: Vec<Value>,
    /// Foreign-owned objects, addressed by slot index.  Slots are never
    /// reused; finalization empties a slot in place.
    pub objects: Vec<Object>,
    /// How many stack slots this frame may use in total.
    pub capacity: usize,
    /// Whether the collector is currently running.
    pub gc_running: bool,
    /// The per-handle singletons, present once initialization has run.
    pub registry: Option<Registry>,
    /// Source of fresh tag identities.  Every tag ever handed out is below
    /// this bound, so a fresh tag equals no existing one.
    pub next_tag: u64,
    /// Identity of the main thread, recoverable from any coroutine of the
    /// handle.
    pub main_thread: u64,
}

/// Turn a one-based index (positive from the bottom, negative from the top)
/// into a zero-based stack position.
pub open spec fn resolve_index(depth: int, idx: int) -> int {
    if idx > 0 {
        idx - 1
    } else {
        depth + idx
    }
}

/// Whether a one-based index denotes an existing stack slot.
pub open spec fn index_valid(depth: int, idx: int) -> bool {
    (1 <= idx && idx <= depth) || (-depth <= idx && idx <= -1)
}

/// Whether installing `tag` on an object holding `p` keeps tag identity
/// honest: the registry's envelope tags only ever sit on envelope payloads.
pub open spec fn tag_allowed(reg: Option<Registry>, tag: u64, p: Payload) -> bool {
    match reg {
        Some(r) => (tag == r.error_tag ==> p is WrappedError) && (tag == r.panic_tag
            ==> p is WrappedPanic),
        None => true,
    }
}

impl Vm {
    /// Current stack depth.
    pub open spec fn depth(self) -> nat {
        self.stack@.len()
    }

    /// The value at a one-based index.
    pub open spec fn at(self, idx: int) -> Value {
        self.stack@[resolve_index(self.depth() as int, idx)]
    }

    /// Whether initialization has registered the per-handle singletons.
    pub open spec fn initialized(self) -> bool {
        self.registry is Some
    }

    /// The registered singletons.
    pub open spec fn reg(self) -> Registry
        recommends
            self.initialized(),
    {
        match self.registry {
            Some(r) => r,
            None => vstd::pervasive::arbitrary(),
        }
    }

    /// Every stack value's object reference stays within the arena.
    pub open spec fn stack_ok(self) -> bool {
        &&& self.stack@.len() <= self.capacity
        &&& forall|i: int|
            0 <= i < self.stack@.len() ==> (#[trigger] self.stack@[i]).ok_for(
                self.objects@.len() as nat,
            )
    }

    /// Every tag ever installed came from the fresh-tag source.
    pub open spec fn tags_ok(self) -> bool {
        forall|j: int|
            0 <= j < self.objects@.len() ==> match (#[trigger] self.objects@[j]).tag {
                Some(t) => t < self.next_tag,
                None => true,
            }
    }

    /// The registered singletons are fresh-sourced, pairwise distinct, the
    /// destructed template intercepts every capability, and the envelope
    /// tags sit only on envelope payloads.
    pub open spec fn registry_ok(self) -> bool {
        match self.registry {
            Some(r) => {
                &&& r.error_tag < self.next_tag
                &&& r.panic_tag < self.next_tag
                &&& r.destructed_tag < self.next_tag
                &&& r.error_tag != r.panic_tag
                &&& r.error_tag != r.destructed_tag
                &&& r.panic_tag != r.destructed_tag
                &&& forall|c: Capability| r.destructed_meta.intercepted@.contains(c)
                &&& forall|j: int|
                    0 <= j < self.objects@.len() ==> tag_allowed(
                        self.registry,
                        match (#[trigger] self.objects@[j]).tag {
                            Some(t) => t,
                            None => r.destructed_tag,
                        },
                        self.objects@[j].payload,
                    )
            },
            None => true,
        }
    }

    /// The handle's well-formedness invariant.  Every operation of the core
    /// preserves it.
    pub open spec fn wf(self) -> bool {
        &&& 1 <= self.capacity
        &&& self.capacity <= MAX_STACK
        &&& self.stack_ok()
        &&& self.tags_ok()
        &&& self.registry_ok()
    }

    /// Everything but the stack is unchanged.
    pub open spec fn same_heap(pre: Vm, post: Vm) -> bool {
        &&& post.objects == pre.objects
        &&& post.capacity == pre.capacity
        &&& post.gc_running == pre.gc_running
        &&& post.registry == pre.registry
        &&& post.next_tag == pre.next_tag
        &&& post.main_thread == pre.main_thread
    }

    /// The object with arena slot `id` is an envelope carrying a typed
    /// error: its installed tag is identity-equal to the registry's error
    /// template.
    pub open spec fn obj_is_error_envelope(self, id: int) -> bool {
        &&& self.initialized()
        &&& 0 <= id < self.objects@.len()
        &&& self.objects@[id].tag == Some(self.reg().error_tag)
    }

    /// The object with arena slot `id` is an envelope carrying a captured
    /// panic.
    pub open spec fn obj_is_panic_envelope(self, id: int) -> bool {
        &&& self.initialized()
        &&& 0 <= id < self.objects@.len()
        &&& self.objects@[id].tag == Some(self.reg().panic_tag)
    }

    /// The value at a one-based index is an error envelope.
    pub open spec fn error_envelope_at(self, idx: int) -> bool {
        &&& index_valid(self.depth() as int, idx)
        &&& match self.at(idx) {
            Value::Foreign(id) => self.obj_is_error_envelope(id as int),
            _ => false,
        }
    }

    /// The value at a one-based index is a panic envelope.
    pub open spec fn panic_envelope_at(self, idx: int) -> bool {
        &&& index_valid(self.depth() as int, idx)
        &&& match self.at(idx) {
            Value::Foreign(id) => self.obj_is_panic_envelope(id as int),
            _ => false,
        }
    }

    /// A fresh machine handle: empty stack, empty arena, collector running,
    /// singletons not yet registered.
    pub fn new(capacity: usize, main_thread: u64) -> (vm: Vm)
        requires
            1 <= capacity <= MAX_STACK,
        ensures
            vm.wf(),
            vm.stack@ =~= Seq::<Value>::empty(),
            vm.objects@ =~= Seq::<Object>::empty(),
            vm.capacity == capacity,
            vm.gc_running,
            vm.registry is None,
            vm.next_tag == 0,
            vm.main_thread == main_thread,
    {
        Vm {
            stack: Vec::new(),
            objects: Vec::new(),
            capacity,
            gc_running: true,
            registry: None,
            next_tag: 0,
            main_thread,
        }
    }

    /// Current stack depth.
    pub fn top(&self) -> (n: usize)
        ensures
            n == self.depth(),
    {
        self.stack.len()
    }

    /// Whether `n` more slots fit within this frame's capacity.
    pub fn check_space(&self, n: usize) -> (b: bool)
        ensures
            b == (self.depth() + n <= self.capacity),
    {
        let used = self.stack.len();
        if used > self.capacity {
            false
        } else {
            n <= self.capacity - used
        }
    }

    /// Push one value.  Callers must have reserved the slot.
    pub fn push(&mut self, v: Value)
        requires
            old(self).wf(),
            old(self).depth() < old(self).capacity,
            v.ok_for(old(self).objects@.len() as nat),
        ensures
            final(self).wf(),
            final(self).stack@ == old(self).stack@.push(v),
            Vm::same_heap(*old(self), *final(self)),
    {
        self.stack.push(v);
    }

    /// Shrink the stack to exactly `n` values.
    pub fn settop(&mut self, n: usize)
        requires
            old(self).wf(),
            n <= old(self).depth(),
        ensures
            final(self).wf(),
            final(self).stack@ == old(self).stack@.subrange(0, n as int),
            Vm::same_heap(*old(self), *final(self)),
    {
        self.stack.truncate(n);
    }

    /// Pop and return the top value.
    pub fn pop_value(&mut self) -> (v: Value)
        requires
            old(self).wf(),
            old(self).depth() >= 1,
        ensures
            final(self).wf(),
            v == old(self).stack@.last(),
            final(self).stack@ == old(self).stack@.drop_last(),
            Vm::same_heap(*old(self), *final(self)),
    {
        self.stack.pop().unwrap()
    }

    /// Read the value at a one-based index.
    pub fn value_at(&self, idx: i32) -> (v: &Value)
        requires
            self.wf(),
            index_valid(self.depth() as int, idx as int),
        ensures
            *v == self.at(idx as int),
    {
        if idx > 0 {
            &self.stack[(idx - 1) as usize]
        } else {
            &self.stack[self.stack.len() - ((-idx) as usize)]
        }
    }

    /// Allocate a fresh arena slot holding `p`, with no tag installed.
    pub fn new_object(&mut self, p: Payload) -> (id: usize)
        requires
            old(self).wf(),
            old(self).objects@.len() < usize::MAX,
        ensures
            final(self).wf(),
            id == old(self).objects@.len(),
            final(self).objects@ == old(self).objects@.push(
                Object { tag: None, payload: p },
            ),
            final(self).stack == old(self).stack,
            final(self).capacity == old(self).capacity,
            final(self).gc_running == old(self).gc_running,
            final(self).registry == old(self).registry,
            final(self).next_tag == old(self).next_tag,
            final(self).main_thread == old(self).main_thread,
    {
        let id = self.objects.len();
        self.objects.push(Object { tag: None, payload: p });
        proof {
            assert forall|i: int| 0 <= i < self.stack@.len() implies (
            #[trigger] self.stack@[i]).ok_for(self.objects@.len() as nat) by {
                assert(old(self).stack@[i].ok_for(old(self).objects@.len() as nat));
            }
        }
        id
    }

    /// Install `tag` on the object in arena slot `id`.
    pub fn set_tag(&mut self, id: usize, tag: u64)
        requires
            old(self).wf(),
            id < old(self).objects@.len(),
            tag < old(self).next_tag,
            tag_allowed(old(self).registry, tag, old(self).objects@[id as int].payload),
        ensures
            final(self).wf(),
            final(self).objects@ == old(self).objects@.update(
                id as int,
                Object { tag: Some(tag), payload: old(self).objects@[id as int].payload },
            ),
            final(self).stack == old(self).stack,
            final(self).capacity == old(self).capacity,
            final(self).gc_running == old(self).gc_running,
            final(self).registry == old(self).registry,
            final(self).next_tag == old(self).next_tag,
            final(self).main_thread == old(self).main_thread,
    {
        self.objects[id].tag = Some(tag);
    }

    /// Hand out a tag identity that equals no tag ever handed out before.
    pub fn fresh_tag(&mut self) -> (t: u64)
        requires
            old(self).wf(),
            old(self).next_tag < u64::MAX,
        ensures
            final(self).wf(),
            t == old(self).next_tag,
            final(self).next_tag == old(self).next_tag + 1,
            final(self).stack == old(self).stack,
            final(self).objects == old(self).objects,
            final(self).capacity == old(self).capacity,
            final(self).gc_running == old(self).gc_running,
            final(self).registry == old(self).registry,
            final(self).main_thread == old(self).main_thread,
    {
        let t = self.next_tag;
        self.next_tag = self.next_tag + 1;
        t
    }

    /// Whether the collector is currently running.
    pub fn gc_is_running(&self) -> (b: bool)
        ensures
            b == self.gc_running,
    {
        self.gc_running
    }

    /// Stop the collector.
    pub fn gc_stop(&mut self)
        ensures
            *final(self) == (Vm { gc_running: false, ..*old(self) }),
    {
        self.gc_running = false;
    }

    /// Restart the collector.
    pub fn gc_restart(&mut self)
        ensures
            *final(self) == (Vm { gc_running: true, ..*old(self) }),
    {
        self.gc_running = true;
    }
}

} // verus!
