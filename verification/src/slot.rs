//! The shared storage unit behind one registered handler.
//!
//! A slot is the callable behind a mutual-exclusion lock, owned strongly by
//! whoever received the handle from registration and observed weakly by the
//! registry. Liveness — whether a strong owner still exists — is decided by
//! the reference counter at run time and depends on what other owners have
//! done meanwhile, so the wrappers here promise nothing about which branch an
//! upgrade takes: the registry's logic is verified for every outcome.

use std::sync::Arc;
use std::sync::Mutex;
use std::sync::Weak;

use vstd::prelude::*;

use crate::handler::RawHandler;

verus! {

/// A strong, owning handle to a registered handler's slot. Registration hands
/// one back to the caller; the slot stays live exactly as long as at least one
/// strong handle exists, and dropping the last one is the sole mechanism of
/// deregistration.
#[verifier::external_body]
#[verifier::reject_recursive_types(T)]
pub struct HandlerHandle<T> {
    slot: Arc<Mutex<RawHandler<T>>>,
}

/// The registry's weak, non-owning observation handle to a slot. It never
/// keeps the slot alive: it only upgrades to a strong handle while some
/// external owner still holds one.
#[verifier::external_body]
#[verifier::reject_recursive_types(T)]
pub struct WeakHandle<T> {
    slot: Weak<Mutex<RawHandler<T>>>,
}

impl<T> HandlerHandle<T> {
    /// Allocates the shared, lock-protected slot for one callable. Relies on
    /// `Arc::new` and `Mutex::new`; creation always succeeds.
    #[verifier::external_body]
    pub(crate) fn new(raw: RawHandler<T>) -> Self {
        HandlerHandle { slot: Arc::new(Mutex::new(raw)) }
    }

    /// The registry's non-owning handle to the same slot. Relies on
    /// `Arc::downgrade`; the weak handle never counts toward liveness.
    #[verifier::external_body]
    pub(crate) fn downgrade(&self) -> WeakHandle<T> {
        WeakHandle { slot: Arc::downgrade(&self.slot) }
    }

    /// Locks the slot and runs its callable on `args`, releasing the lock on
    /// return; concurrent invocations of the same slot serialize here. Relies
    /// on `Mutex::lock`. Returns `false` without invoking anything when the
    /// lock is poisoned, that is, when some earlier invocation panicked while
    /// holding it.
    #[verifier::external_body]
    pub(crate) fn invoke(&self, args: &[T]) -> bool {
        match self.slot.lock() {
            Ok(mut guard) => {
                guard.run(args);
                true
            },
            Err(_) => false,
        }
    }
}

impl<T> WeakHandle<T> {
    /// Attempts to reacquire a strong handle to the slot: `None` exactly when
    /// no strong owner remains. Relies on `Weak::upgrade`. The outcome depends
    /// on what the slot's owners have done meanwhile, so nothing is promised
    /// of it, and two calls on the same handle may answer differently.
    #[verifier::external_body]
    pub(crate) fn upgrade(&self) -> Option<HandlerHandle<T>> {
        match self.slot.upgrade() {
            Some(slot) => Some(HandlerHandle { slot }),
            None => None,
        }
    }

    /// Another weak handle observing the same slot. Relies on `Weak::clone`.
    #[verifier::external_body]
    pub(crate) fn clone_handle(&self) -> WeakHandle<T> {
        WeakHandle { slot: self.slot.clone() }
    }
}

} // verus!
