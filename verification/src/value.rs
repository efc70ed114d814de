//! Machine values, foreign-object payloads, and the capabilities a type tag
//! can intercept.

use vstd::prelude::*;
use crate::errors::Error;

verus! {

/// A captured native panic payload.  It is carried as an opaque value across
/// machine control-transfer boundaries and resumed exactly once, back on the
/// host side.  It is deliberately not duplicable.
pub struct PanicPayload {
    pub message: String,
}

impl PanicPayload {
    pub fn new(message: String) -> (p: PanicPayload)
        ensures
            p.message == message,
    {
        PanicPayload { message }
    }
}

/// What a foreign-owned object holds.
pub enum Payload {
    /// An envelope around a completed typed error.
    WrappedError(Error),
    /// An envelope around a captured native panic.  The payload is
    /// extractable exactly once; after extraction the slot holds nothing.
    WrappedPanic(Option<PanicPayload>),
    /// Arbitrary host data handed to the machine as a foreign object.
    Plain(i64),
    /// The slot was emptied at finalization time and is permanently inert.
    Gone,
}

/// A tagged machine value as it sits on the value stack.
pub enum Value {
    Nil,
    Boolean(bool),
    Integer(i64),
    Str(String),
    /// A reference to a foreign-owned object, by its slot in the object
    /// arena.
    Foreign(usize),
}

impl Value {
    /// Whether the value's object reference, if any, stays within an arena of
    /// `n_objects` slots.
    pub open spec fn ok_for(self, n_objects: nat) -> bool {
        match self {
            Value::Foreign(id) => id < n_objects,
            _ => true,
        }
    }
}

/// The arena slot a value refers to, or a slot no arena has for values that
/// are not object references.
pub open spec fn foreign_id(v: Value) -> int {
    match v {
        Value::Foreign(id) => id as int,
        _ => -1,
    }
}

/// A capability that a type tag can intercept: every operation script code
/// can perform on a foreign object.
#[derive(PartialEq, Eq, Structural, Clone, Copy)]
pub enum Capability {
    Add,
    Subtract,
    Multiply,
    Divide,
    Modulo,
    Power,
    Negate,
    IntegerDivide,
    BitAnd,
    BitOr,
    BitXor,
    BitNot,
    ShiftLeft,
    ShiftRight,
    Concat,
    Length,
    Equals,
    LessThan,
    LessOrEqual,
    Index,
    NewIndex,
    Call,
    Stringify,
    Pairs,
    InversePairs,
}

} // verus!
