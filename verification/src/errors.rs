//! Why a dispatch round failed.

use vstd::prelude::*;

verus! {

/// The failure of one dispatch round. Every variant is non-fatal: the registry
/// stays in a valid state and may be used again.
#[derive(Clone, Copy, Debug, PartialEq, Eq, Structural)]
pub enum DispatchError {
    /// The batch's length differed from the number of handlers live after
    /// pruning. Reported before any handler runs.
    CountMismatch,
    /// The batch's length was right, but this many positions carried a
    /// parameter list whose arity differs from the live handler's arity at
    /// the same position. All mismatching positions are counted, not just the
    /// first, and no handler runs.
    ShapeMismatch(usize),
    /// A handler that was live during validation lost its last strong owner
    /// before its turn to run. Dispatch aborts at that position: earlier
    /// handlers keep their effects, later ones are not invoked.
    HandlerDropped,
    /// A slot's lock was poisoned by an invocation that panicked while
    /// holding it. Dispatch aborts at that position, like a dropped handler.
    LockFailed,
}

/// The decimal rendering of `n`, exactly as `format!` writes an unsigned
/// integer. The rendering depends on the number alone; what it looks like is
/// left unstated, and the messages built around it are pinned up to this name.
pub uninterp spec fn decimal_of(n: nat) -> Seq<char>;

impl DispatchError {
    /// The human-readable description of the failure.
    pub fn message(&self) -> (r: String)
        ensures
            *self is CountMismatch ==> r@ == "mismatched param counts to active handlers"@,
            *self matches DispatchError::ShapeMismatch(n) ==> r@ == "mismatching params for "@
                + decimal_of(n as nat) + " handlers"@,
            *self is HandlerDropped ==> r@ == "unexpected dropped handler"@,
            *self is LockFailed ==> r@ == "retrieving mutex guard of handler failure"@,
    {
        match self {
            DispatchError::CountMismatch => {
                String::from_str("mismatched param counts to active handlers")
            },
            DispatchError::ShapeMismatch(n) => shape_mismatch_message(*n),
            DispatchError::HandlerDropped => String::from_str("unexpected dropped handler"),
            DispatchError::LockFailed => {
                String::from_str("retrieving mutex guard of handler failure")
            },
        }
    }
}

/// Renders the shape-mismatch description around the number of mismatching
/// positions. Relies on `format!`: the fixed words of the format string stand
/// around the count, written in decimal.
#[verifier::external_body]
fn shape_mismatch_message(n: usize) -> (r: String)
    ensures
        r@ == "mismatching params for "@ + decimal_of(n as nat) + " handlers"@,
{
    format!("mismatching params for {} handlers", n)
}

} // verus!
