//! What the entry point of a native call does with the result of its body:
//! the value to hand back to Java, and the exception to throw.

use vstd::prelude::*;
use crate::error::{Fault, JniFailed, PossibleError, RUNTIME_EXCEPTION_CLASS};

verus! {

/// What an entry point does towards the JVM once its body has finished.
#[derive(Debug)]
pub enum CatchAction {
    /// Nothing: the call succeeded, or its exception is already pending.
    Nothing,
    /// Throw a new exception of `class` with message `msg`.
    ThrowNew { class: String, msg: String },
    /// Throw `SgxException(name, code)`.
    ThrowSgx { name: &'static str, code: i64 },
    /// The body panicked: ask the JVM whether an exception is pending, and
    /// hand the answer to `after_panic`.
    CheckPending,
}

/// The message of the exception thrown when the native code panicked.
pub open spec fn panic_msg() -> Seq<char> {
    "rust panicked"@
}

/// Ends a native call: the value to return (the body's value, or
/// `default` when it failed) and what to throw. An error whose exception
/// the JVM already holds throws nothing more.
pub fn catch_decision<T>(result: Result<T, Fault>, default: T) -> (res: (T, CatchAction))
    ensures
        match result {
            Ok(v) => res.0 == v && res.1 is Nothing,
            Err(Fault::Raised(PossibleError::Generic { class, msg })) => res.0 == default
                && res.1 == (CatchAction::ThrowNew { class, msg }),
            Err(Fault::Raised(PossibleError::SgxError { name, code })) => res.0 == default
                && res.1 == (CatchAction::ThrowSgx { name, code }),
            Err(Fault::Raised(PossibleError::AlreadyThrown)) => res.0 == default && res.1 is Nothing,
            Err(Fault::Panicked) => res.0 == default && res.1 is CheckPending,
        },
{
    match result {
        Ok(value) => (value, CatchAction::Nothing),
        Err(Fault::Raised(error)) => {
            let action = match error {
                PossibleError::Generic { class, msg } => CatchAction::ThrowNew { class, msg },
                PossibleError::SgxError { name, code } => CatchAction::ThrowSgx { name, code },
                PossibleError::AlreadyThrown => CatchAction::Nothing,
            };
            (default, action)
        },
        Err(Fault::Panicked) => (default, CatchAction::CheckPending),
    }
}

/// After a panic: throw a `RuntimeException` when the JVM has no pending
/// exception; do nothing when it has one, or when it cannot tell.
pub fn after_panic(exception_pending: Result<bool, JniFailed>) -> (res: CatchAction)
    ensures
        match exception_pending {
            Ok(false) => res matches CatchAction::ThrowNew { class, msg } && class@
                == RUNTIME_EXCEPTION_CLASS@ && msg@ == panic_msg(),
            _ => res is Nothing,
        },
{
    match exception_pending {
        Ok(false) => CatchAction::ThrowNew {
            class: String::from_str(RUNTIME_EXCEPTION_CLASS),
            msg: String::from_str("rust panicked"),
        },
        _ => CatchAction::Nothing,
    }
}

} // verus!
