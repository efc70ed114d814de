//! The closed set of typed failures that can cross the machine boundary.

use vstd::prelude::*;
use vstd::string::StringExecFns;
use std::sync::Arc;

verus! {

/// A typed failure.  Every variant is cheaply duplicable without panicking,
/// because the same value may be read several times while still owned by a
/// stack-resident envelope.
#[derive(Debug)]
pub enum Error {
    /// A runtime failure reported by the machine while executing script code.
    RuntimeError(String),
    /// A failure reported while compiling script source.  `incomplete_input`
    /// records whether the source merely ended too early.
    SyntaxError { message: String, incomplete_input: bool },
    /// A failure raised from a finalizer while the collector was running.
    GarbageCollectorError(String),
    /// Insufficient stack space for a user-controlled growth request.
    /// Recoverable by design: the requested amount can be user influenced.
    StackError,
    /// An error re-raised through a message handler: it gains a captured
    /// traceback and wraps the original.  The cause is shared because the
    /// traceback handler and the final catcher both need read access.
    CallbackError { traceback: String, cause: Arc<Error> },
    /// An operation was attempted on a foreign handle after its native
    /// resource was reclaimed by the collector.
    CallbackDestructed,
}

/// A fatal internal-invariant violation.  These are never representable as
/// envelopes: the embedding aborts the process when one is reported, because
/// continuing would risk memory corruption or a double-free.
pub enum Fatal {
    /// After a successful operation the stack depth did not match the
    /// declared delta: a push or pop was miscounted somewhere in the core.
    StackMismatch,
    /// After a failed operation the stack was deeper-popped than the declared
    /// delta allows: values that no longer exist cannot be restored.
    StackUnderflow,
    /// A captured panic payload was extracted twice.
    PanicResumedTwice,
    /// There was no room to represent an in-flight panic on the stack.
    PanicPropagationSpace,
    /// The machine reported an allocation failure, which the embedding's
    /// allocator policy is supposed to make impossible.
    AllocationFailed,
}

/// Observational equality of two errors: same variant, same message text,
/// and observationally equal cause.
pub open spec fn err_equiv(a: Error, b: Error) -> bool
    decreases a,
{
    match (a, b) {
        (Error::RuntimeError(m1), Error::RuntimeError(m2)) => m1@ == m2@,
        (
            Error::SyntaxError { message: m1, incomplete_input: i1 },
            Error::SyntaxError { message: m2, incomplete_input: i2 },
        ) => m1@ == m2@ && i1 == i2,
        (Error::GarbageCollectorError(m1), Error::GarbageCollectorError(m2)) => m1@ == m2@,
        (Error::StackError, Error::StackError) => true,
        (
            Error::CallbackError { traceback: t1, cause: c1 },
            Error::CallbackError { traceback: t2, cause: c2 },
        ) => t1@ == t2@ && err_equiv(*c1, *c2),
        (Error::CallbackDestructed, Error::CallbackDestructed) => true,
        _ => false,
    }
}

/// The display text of an error: what script code sees when it asks for a
/// textual form.  Never exposes internal structure.
pub open spec fn error_text(e: Error) -> Seq<char> {
    match e {
        Error::RuntimeError(m) => "runtime error: "@ + m@,
        Error::SyntaxError { message: m, incomplete_input: _ } => "syntax error: "@ + m@,
        Error::GarbageCollectorError(m) => "garbage collector error: "@ + m@,
        Error::StackError => "insufficient stack space"@,
        Error::CallbackError { traceback: t, cause: _ } => "callback error: "@ + t@,
        Error::CallbackDestructed => "a destructed foreign handle cannot be used"@,
    }
}

/// Relies on `std::sync::Arc::clone`: the clone is the same shared value.
#[verifier::external_body]
fn clone_arc_error(a: &Arc<Error>) -> (r: Arc<Error>)
    ensures
        r == *a,
{
    Arc::clone(a)
}

impl Error {
    /// Duplicate the error.  Duplication is cheap and cannot fail: message
    /// strings are copied and a shared cause is shared once more.
    pub fn duplicate(&self) -> (r: Error)
        ensures
            r == *self,
    {
        match self {
            Error::RuntimeError(m) => Error::RuntimeError(m.clone()),
            Error::SyntaxError { message, incomplete_input } => Error::SyntaxError {
                message: message.clone(),
                incomplete_input: *incomplete_input,
            },
            Error::GarbageCollectorError(m) => Error::GarbageCollectorError(m.clone()),
            Error::StackError => Error::StackError,
            Error::CallbackError { traceback, cause } => Error::CallbackError {
                traceback: traceback.clone(),
                cause: clone_arc_error(cause),
            },
            Error::CallbackDestructed => Error::CallbackDestructed,
        }
    }

    /// The display text of the error, as [`error_text`] states it.
    pub fn describe(&self) -> (s: String)
        ensures
            s@ == error_text(*self),
    {
        match self {
            Error::RuntimeError(m) => String::from_str("runtime error: ").concat(m.as_str()),
            Error::SyntaxError { message, incomplete_input: _ } => String::from_str(
                "syntax error: ",
            ).concat(message.as_str()),
            Error::GarbageCollectorError(m) => String::from_str(
                "garbage collector error: ",
            ).concat(m.as_str()),
            Error::StackError => String::from_str("insufficient stack space"),
            Error::CallbackError { traceback, cause: _ } => String::from_str(
                "callback error: ",
            ).concat(traceback.as_str()),
            Error::CallbackDestructed => String::from_str(
                "a destructed foreign handle cannot be used",
            ),
        }
    }

    /// Observational equality test, deciding [`err_equiv`].
    pub fn same_as(&self, other: &Error) -> (r: bool)
        ensures
            r == err_equiv(*self, *other),
        decreases self,
    {
        match (self, other) {
            (Error::RuntimeError(m1), Error::RuntimeError(m2)) => m1.eq(m2),
            (
                Error::SyntaxError { message: m1, incomplete_input: i1 },
                Error::SyntaxError { message: m2, incomplete_input: i2 },
            ) => m1.eq(m2) && *i1 == *i2,
            (Error::GarbageCollectorError(m1), Error::GarbageCollectorError(m2)) => m1.eq(m2),
            (Error::StackError, Error::StackError) => true,
            (
                Error::CallbackError { traceback: t1, cause: c1 },
                Error::CallbackError { traceback: t2, cause: c2 },
            ) => t1.eq(t2) && (&**c1).same_as(&**c2),
            (Error::CallbackDestructed, Error::CallbackDestructed) => true,
            _ => false,
        }
    }
}

} // verus!
