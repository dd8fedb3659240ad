//! The registry: an ordered sequence of weak slot handles, with the
//! prune / validate / dispatch protocol.
//!
//! The registry's mathematical view is the sequence of arities its entries
//! declared at registration, in insertion order — insertion order is dispatch
//! order. Which entries are still live is a run-time fact owned by the
//! reference counters, so the contracts here speak of the sequence as it
//! stands after pruning, and promise what holds for every liveness outcome.

use vstd::prelude::*;

use crate::errors::DispatchError;
use crate::handler::CallbackHandler;
use crate::params::CallbackParams;
use crate::slot::HandlerHandle;
use crate::slot::WeakHandle;

verus! {

/// One registry entry: the weak view of a slot, beside the arity its handler
/// declared at registration. A slot's callable is never replaced after
/// creation, so the recorded arity is the arity of whatever the weak handle
/// still upgrades to.
#[verifier::reject_recursive_types(T)]
pub struct RegistryEntry<T> {
    /// The non-owning observation handle to the entry's slot.
    pub weak: WeakHandle<T>,
    /// The declared argument count of the handler behind `weak`.
    pub arity: usize,
}

/// The arities of `entries`, in order: the registry's mathematical view.
pub open spec fn entry_arities<T>(entries: Seq<RegistryEntry<T>>) -> Seq<nat> {
    entries.map_values(|e: RegistryEntry<T>| e.arity as nat)
}

/// Whether `inner` is `outer` with zero or more elements removed, the rest
/// kept in their original relative order. Pruning a registry only removes
/// entries, never reorders them, so its view always shrinks to a subsequence.
pub open spec fn subsequence_of(inner: Seq<nat>, outer: Seq<nat>) -> bool
    decreases outer.len(),
{
    if outer.len() == 0 {
        inner.len() == 0
    } else {
        (inner.len() > 0 && inner.last() == outer.last() && subsequence_of(
            inner.drop_last(),
            outer.drop_last(),
        )) || subsequence_of(inner, outer.drop_last())
    }
}

/// Appending the same element to both sequences preserves the subsequence
/// relation.
proof fn lemma_subsequence_push_both(inner: Seq<nat>, outer: Seq<nat>, x: nat)
    requires
        subsequence_of(inner, outer),
    ensures
        subsequence_of(inner.push(x), outer.push(x)),
{
    assert(inner.push(x).drop_last() =~= inner);
    assert(outer.push(x).drop_last() =~= outer);
}

/// Appending an element to the outer sequence alone preserves the subsequence
/// relation: the appended element counts among the removed ones.
proof fn lemma_subsequence_push_outer(inner: Seq<nat>, outer: Seq<nat>, x: nat)
    requires
        subsequence_of(inner, outer),
    ensures
        subsequence_of(inner, outer.push(x)),
{
    assert(outer.push(x).drop_last() =~= outer);
}

/// How many positions of `params` carry an arity different from the handler
/// arity at the same position. Only meaningful when both sequences have the
/// same length; positions beyond the shorter one are not counted.
pub open spec fn num_mismatches<T: Copy>(
    arities: Seq<nat>,
    params: Seq<CallbackParams<T>>,
) -> nat
    decreases arities.len(),
{
    if arities.len() == 0 || params.len() == 0 {
        0
    } else {
        num_mismatches(arities.drop_last(), params.drop_last()) + (
        if arities.last() == params.last().spec_arity() {
            0nat
        } else {
            1nat
        })
    }
}

/// A batch of matching length has no mismatching position exactly when every
/// position's parameter arity equals the handler arity there: the shape check
/// passes if and only if the batch matches the live handlers one to one.
pub proof fn lemma_no_mismatches<T: Copy>(arities: Seq<nat>, params: Seq<CallbackParams<T>>)
    requires
        arities.len() == params.len(),
    ensures
        num_mismatches(arities, params) == 0 <==> (forall|i: int|
            0 <= i < arities.len() ==> arities[i] == params[i].spec_arity()),
    decreases arities.len(),
{
    if arities.len() > 0 {
        lemma_no_mismatches(arities.drop_last(), params.drop_last());
        if num_mismatches(arities, params) == 0 {
            assert forall|i: int| 0 <= i < arities.len() implies arities[i]
                == params[i].spec_arity() by {
                if i < arities.len() - 1 {
                    assert(arities.drop_last()[i] == params.drop_last()[i].spec_arity());
                }
            }
        } else {
            if forall|i: int| 0 <= i < arities.len() ==> arities[i] == params[i].spec_arity() {
                assert forall|i: int| 0 <= i < arities.len() - 1 implies arities.drop_last()[i]
                    == params.drop_last()[i].spec_arity() by {
                    assert(arities[i] == params[i].spec_arity());
                }
                assert(arities.last() == params.last().spec_arity());
                assert(num_mismatches(arities, params) == 0);
            }
        }
    }
}

/// A registry of callback handlers: an ordered sequence of weak observation
/// handles, each remembering its handler's declared arity. The registry never
/// owns a handler — dropping the strong handle returned by `add` is the sole
/// mechanism of deregistration, discovered lazily at dispatch time.
#[verifier::reject_recursive_types(T)]
pub struct CallbackManager<T: Copy> {
    /// The ordered entries, dead ones included until the next pruning pass.
    pub handlers: Vec<RegistryEntry<T>>,
}

impl<T: Copy> View for CallbackManager<T> {
    type V = Seq<nat>;

    open spec fn view(&self) -> Seq<nat> {
        entry_arities(self.handlers@)
    }
}

impl<T: Copy> CallbackManager<T> {
    /// Creates an empty registry.
    pub fn new() -> (r: Self)
        ensures
            r@ == Seq::<nat>::empty(),
    {
        let r = CallbackManager { handlers: Vec::new() };
        proof {
            assert(r@ =~= Seq::<nat>::empty());
        }
        r
    }

    /// Wraps `handler` in a new shared slot, appends the slot's weak handle to
    /// the sequence — insertion order is dispatch order — and returns the
    /// strong handle. The caller keeps the handler registered exactly as long
    /// as it keeps that handle (or a clone of it) alive; there is no explicit
    /// remove operation.
    pub fn add(&mut self, handler: CallbackHandler<T>) -> (r: HandlerHandle<T>)
        ensures
            final(self)@ == old(self)@.push(handler.spec_arity()),
    {
        let (arity, raw) = handler.into_parts();
        let strong = HandlerHandle::new(raw);
        let weak = strong.downgrade();
        self.handlers.push(RegistryEntry { weak, arity });
        proof {
            assert(final(self)@ =~= old(self)@.push(handler.spec_arity()));
        }
        strong
    }

    /// Counts the entries whose weak handle upgrades right now: a point-in-time
    /// snapshot that mutates nothing and in particular does not prune. Liveness
    /// is decided by the reference counters at the moment each entry is probed,
    /// so the one thing that holds of every outcome is the bound by the
    /// sequence length.
    pub fn active_count(&self) -> (r: usize)
        ensures
            r <= self@.len(),
    {
        let mut live: usize = 0;
        let n = self.handlers.len();
        for i in 0..n
            invariant
                live <= i,
                n == self.handlers@.len(),
        {
            if self.handlers[i].weak.upgrade().is_some() {
                live = live + 1;
            }
        }
        live
    }

    /// The pruning pass: removes every entry whose weak handle no longer
    /// upgrades, permanently, and keeps the survivors in their original
    /// relative order. Run by dispatch before validation; the view after the
    /// call is a subsequence of the view before it.
    fn drop_inactive(&mut self)
        ensures
            subsequence_of(final(self)@, old(self)@),
    {
        let mut kept: Vec<RegistryEntry<T>> = Vec::new();
        let n = self.handlers.len();
        for i in 0..n
            invariant
                n == self.handlers@.len(),
                self.handlers@ == old(self).handlers@,
                subsequence_of(entry_arities(kept@), entry_arities(self.handlers@.take(i as int))),
        {
            let entry = &self.handlers[i];
            let ghost kept_before = kept@;
            if entry.weak.upgrade().is_some() {
                kept.push(RegistryEntry { weak: entry.weak.clone_handle(), arity: entry.arity });
                proof {
                    assert(entry_arities(kept@) =~= entry_arities(kept_before).push(
                        self.handlers@[i as int].arity as nat,
                    ));
                    lemma_subsequence_push_both(
                        entry_arities(kept_before),
                        entry_arities(self.handlers@.take(i as int)),
                        self.handlers@[i as int].arity as nat,
                    );
                }
            } else {
                proof {
                    lemma_subsequence_push_outer(
                        entry_arities(kept_before),
                        entry_arities(self.handlers@.take(i as int)),
                        self.handlers@[i as int].arity as nat,
                    );
                }
            }
            proof {
                assert(entry_arities(self.handlers@.take(i + 1)) =~= entry_arities(
                    self.handlers@.take(i as int),
                ).push(self.handlers@[i as int].arity as nat));
            }
        }
        proof {
            assert(self.handlers@.take(n as int) =~= self.handlers@);
        }
        self.handlers = kept;
    }

    /// The validation phase of dispatch, run against the already-pruned
    /// sequence. First the count check: a batch of the wrong length fails at
    /// once and nothing more is looked at. Then the shape check: every
    /// position is examined — deliberately not stopping at the first
    /// disagreement — and a non-empty mismatch set fails with its size, so a
    /// caller gets one precise diagnostic. A position mismatches when its
    /// recorded arity differs from the parameter's, and also when its weak
    /// handle no longer upgrades: a slot whose owner dropped it since the
    /// pruning pass is counted among the mismatches, never silently skipped.
    /// Those probes depend on run-time liveness, so the reported size is
    /// pinned only from below, by the arity disagreements alone.
    fn try_match_params(&self, params: &Vec<CallbackParams<T>>) -> (r: Result<(), DispatchError>)
        ensures
            r is Ok ==> params@.len() == self@.len() && num_mismatches(self@, params@) == 0,
            r == Err::<(), DispatchError>(DispatchError::CountMismatch) <==> params@.len()
                != self@.len(),
            params@.len() == self@.len() && num_mismatches(self@, params@) > 0 ==> (
            r matches Err(DispatchError::ShapeMismatch(m)) && num_mismatches(self@, params@)
                <= m as nat),
            r matches Err(DispatchError::ShapeMismatch(m)) ==> params@.len() == self@.len() && 0
                < m && num_mismatches(self@, params@) <= m as nat && m as nat <= self@.len(),
            r is Ok || r matches Err(DispatchError::CountMismatch) || r matches Err(
                DispatchError::ShapeMismatch(_),
            ),
    {
        let n = self.handlers.len();
        if params.len() != n {
            return Err(DispatchError::CountMismatch);
        }
        let mut mismatched: usize = 0;
        for i in 0..n
            invariant
                mismatched <= i,
                n == self.handlers@.len(),
                params@.len() == n,
                num_mismatches(entry_arities(self.handlers@.take(i as int)), params@.take(i as int))
                    <= mismatched as nat,
        {
            let ghost before = i as int;
            let live = self.handlers[i].weak.upgrade().is_some();
            if !live || self.handlers[i].arity != params[i].arity() {
                mismatched = mismatched + 1;
            }
            proof {
                let grown = entry_arities(self.handlers@.take(before + 1));
                let grown_params = params@.take(before + 1);
                assert(grown.drop_last() =~= entry_arities(self.handlers@.take(before)));
                assert(grown_params.drop_last() =~= params@.take(before));
                assert(grown.last() == self.handlers@[before].arity as nat);
                assert(grown_params.last() == params@[before]);
            }
        }
        proof {
            assert(self.handlers@.take(n as int) =~= self.handlers@);
            assert(params@.take(n as int) =~= params@);
        }
        if mismatched > 0 {
            return Err(DispatchError::ShapeMismatch(mismatched));
        }
        Ok(())
    }

    /// One dispatch round. Prunes dead entries, validates the batch against
    /// the pruned sequence — count first, then every position's arity — and
    /// only if both checks pass invokes each live handler with its parameter
    /// list, synchronously and in registration order.
    ///
    /// Validation failures invoke nothing. A slot that loses its last strong
    /// owner between the pruning pass and the shape check is counted as a
    /// shape mismatch, so the reported mismatch count is only bounded from
    /// below by the arity disagreements. During invocation, an entry whose
    /// last strong owner disappeared since validation — or whose lock turns
    /// out poisoned — aborts the round at its position: handlers already
    /// invoked keep their effects, later ones are not run, and there is no
    /// rollback. A callback that panics is not intercepted; the panic
    /// propagates to the caller as the handler produced it.
    pub fn run_all(&mut self, params: Vec<CallbackParams<T>>) -> (r: Result<(), DispatchError>)
        ensures
            subsequence_of(final(self)@, old(self)@),
            r is Ok ==> params@.len() == final(self)@.len() && num_mismatches(
                final(self)@,
                params@,
            ) == 0,
            r == Err::<(), DispatchError>(DispatchError::CountMismatch) <==> params@.len()
                != final(self)@.len(),
            params@.len() == final(self)@.len() && num_mismatches(final(self)@, params@) > 0 ==> (
            r matches Err(DispatchError::ShapeMismatch(m)) && num_mismatches(
                final(self)@,
                params@,
            ) <= m as nat),
            r matches Err(DispatchError::ShapeMismatch(m)) ==> params@.len() == final(self)@.len()
                && 0 < m && num_mismatches(final(self)@, params@) <= m as nat && m as nat
                <= final(self)@.len(),
            old(self)@.len() == 0 && params@.len() == 0 ==> r is Ok,
    {
        self.drop_inactive();
        proof {
            if old(self)@.len() == 0 {
                assert(self@.len() == 0);
            }
        }
        match self.try_match_params(&params) {
            Err(e) => {
                return Err(e);
            },
            Ok(()) => {},
        }
        let ghost pruned = *self;
        let n = self.handlers.len();
        for i in 0..n
            invariant
                n == self.handlers@.len(),
                *self == pruned,
                params@.len() == n,
                num_mismatches(self@, params@) == 0,
                subsequence_of(self@, old(self)@),
        {
            match self.handlers[i].weak.upgrade() {
                None => {
                    return Err(DispatchError::HandlerDropped);
                },
                Some(strong) => {
                    let args = params[i].values();
                    if !strong.invoke(args.as_slice()) {
                        return Err(DispatchError::LockFailed);
                    }
                },
            }
        }
        Ok(())
    }
}

} // verus!
