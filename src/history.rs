//! A promise over a sequence of calls. Each operation of `Swear` moves its
//! state by `SwearState::after` and hands out what `success_due` and
//! `failure_due` say; the lemmas here follow that through whole sequences,
//! which is every order in which threads holding the promise can act.
use vstd::prelude::*;
use crate::swear::{Call, SwearState, SwearStatus};

verus! {

/// The state of a promise after `calls`, made in order on a new promise.
pub open spec fn state_after<T, E, S, F>(calls: Seq<Call<T, E, S, F>>) -> SwearState<T, E, S, F>
    decreases calls.len(),
{
    if calls.len() == 0 {
        SwearState::initial()
    } else {
        state_after(calls.drop_last()).after(calls.last())
    }
}

/// Every success callback that `calls` made due, in order, with the value it
/// received.
pub open spec fn successes_delivered<T, E, S, F>(calls: Seq<Call<T, E, S, F>>) -> Seq<(S, T)>
    decreases calls.len(),
{
    if calls.len() == 0 {
        Seq::empty()
    } else {
        successes_delivered(calls.drop_last()) + state_after(calls.drop_last()).success_due(
            calls.last(),
        )
    }
}

/// Every failure callback that `calls` made due, in order, with the error it
/// received.
pub open spec fn failures_delivered<T, E, S, F>(calls: Seq<Call<T, E, S, F>>) -> Seq<(F, E)>
    decreases calls.len(),
{
    if calls.len() == 0 {
        Seq::empty()
    } else {
        failures_delivered(calls.drop_last()) + state_after(calls.drop_last()).failure_due(
            calls.last(),
        )
    }
}

/// The success callbacks that `calls` registered, in order.
pub open spec fn successes_registered<T, E, S, F>(calls: Seq<Call<T, E, S, F>>) -> Seq<S>
    decreases calls.len(),
{
    if calls.len() == 0 {
        Seq::empty()
    } else {
        let before = successes_registered(calls.drop_last());
        match calls.last() {
            Call::OnSuccess(cb) => before.push(cb),
            _ => before,
        }
    }
}

/// The failure callbacks that `calls` registered, in order.
pub open spec fn failures_registered<T, E, S, F>(calls: Seq<Call<T, E, S, F>>) -> Seq<F>
    decreases calls.len(),
{
    if calls.len() == 0 {
        Seq::empty()
    } else {
        let before = failures_registered(calls.drop_last());
        match calls.last() {
            Call::Catch(cb) => before.push(cb),
            _ => before,
        }
    }
}

/// No callback is lost or run twice, whatever the order of the calls. While
/// the promise is pending every callback registered is waiting, in order, and
/// none has run. Once it has settled to `v`, every success callback ever
/// registered, before or after, has been made due exactly once and with `v`,
/// and no failure callback has; symmetrically once it has been rejected.
pub proof fn lemma_callbacks_accounted<T, E, S, F>(calls: Seq<Call<T, E, S, F>>)
    ensures
        state_after(calls).wf(),
        state_after(calls).status is Pending ==> {
            &&& state_after(calls).successes == successes_registered(calls)
            &&& state_after(calls).failures == failures_registered(calls)
            &&& successes_delivered(calls).len() == 0
            &&& failures_delivered(calls).len() == 0
        },
        state_after(calls).status matches SwearStatus::Settled(v) ==> {
            &&& successes_delivered(calls) == successes_registered(calls).map_values(
                |cb: S| (cb, v),
            )
            &&& failures_delivered(calls).len() == 0
        },
        state_after(calls).status matches SwearStatus::Rejected(e) ==> {
            &&& failures_delivered(calls) == failures_registered(calls).map_values(
                |cb: F| (cb, e),
            )
            &&& successes_delivered(calls).len() == 0
        },
    decreases calls.len(),
{
    if calls.len() > 0 {
        let prev = calls.drop_last();
        lemma_callbacks_accounted(prev);
        let s = state_after(prev);
        let regs = successes_registered(prev);
        let fails = failures_registered(prev);
        match s.status {
            SwearStatus::Pending => {
                match calls.last() {
                    Call::Resolve(v) => {
                        assert(successes_delivered(calls) =~= regs.map_values(|cb: S| (cb, v)));
                        assert(failures_delivered(calls) =~= Seq::<(F, E)>::empty());
                    },
                    Call::Reject(e) => {
                        assert(failures_delivered(calls) =~= fails.map_values(|cb: F| (cb, e)));
                        assert(successes_delivered(calls) =~= Seq::<(S, T)>::empty());
                    },
                    _ => {
                        assert(successes_delivered(calls) =~= Seq::<(S, T)>::empty());
                        assert(failures_delivered(calls) =~= Seq::<(F, E)>::empty());
                    },
                }
            },
            SwearStatus::Settled(v) => {
                match calls.last() {
                    Call::OnSuccess(cb) => {
                        assert(successes_delivered(calls) =~= regs.push(cb).map_values(
                            |c: S| (c, v),
                        ));
                    },
                    _ => {
                        assert(successes_delivered(calls) =~= successes_delivered(prev));
                    },
                }
                assert(failures_delivered(calls) =~= failures_delivered(prev));
            },
            SwearStatus::Rejected(e) => {
                match calls.last() {
                    Call::Catch(cb) => {
                        assert(failures_delivered(calls) =~= fails.push(cb).map_values(
                            |c: F| (c, e),
                        ));
                    },
                    _ => {
                        assert(failures_delivered(calls) =~= failures_delivered(prev));
                    },
                }
                assert(successes_delivered(calls) =~= successes_delivered(prev));
            },
        }
    }
}

/// Until a call settles it, a promise stays pending.
proof fn lemma_pending_until_settled<T, E, S, F>(calls: Seq<Call<T, E, S, F>>)
    requires
        forall|j: int| 0 <= j < calls.len() ==> !(#[trigger] calls[j]).settles(),
    ensures
        state_after(calls).status is Pending,
    decreases calls.len(),
{
    if calls.len() > 0 {
        let prev = calls.drop_last();
        assert forall|j: int| 0 <= j < prev.len() implies !(#[trigger] prev[j]).settles() by {
            assert(prev[j] == calls[j]);
        }
        lemma_pending_until_settled(prev);
        assert(!calls[calls.len() - 1].settles());
    }
}

/// The first call that settles a promise decides its status for good: a
/// later settling call changes nothing.
pub proof fn lemma_first_settlement_decides<T, E, S, F>(calls: Seq<Call<T, E, S, F>>, k: int)
    requires
        0 <= k < calls.len(),
        calls[k].settles(),
        forall|j: int| 0 <= j < k ==> !(#[trigger] calls[j]).settles(),
    ensures
        calls[k] matches Call::Resolve(v) ==> state_after(calls).status == SwearStatus::<
            T,
            E,
        >::Settled(v),
        calls[k] matches Call::Reject(e) ==> state_after(calls).status == SwearStatus::<
            T,
            E,
        >::Rejected(e),
    decreases calls.len(),
{
    let prev = calls.drop_last();
    if k == calls.len() - 1 {
        assert forall|j: int| 0 <= j < prev.len() implies !(#[trigger] prev[j]).settles() by {
            assert(prev[j] == calls[j]);
        }
        lemma_pending_until_settled(prev);
    } else {
        assert(prev[k] == calls[k]);
        assert forall|j: int| 0 <= j < k implies !(#[trigger] prev[j]).settles() by {
            assert(prev[j] == calls[j]);
        }
        lemma_first_settlement_decides(prev, k);
    }
}

/// When `resolve(v)` is the first call that settles a promise, every success
/// callback registered at any time, before or after, is made due exactly once,
/// with `v`, and no failure callback ever is.
pub proof fn lemma_resolve_first<T, E, S, F>(calls: Seq<Call<T, E, S, F>>, k: int, v: T)
    requires
        0 <= k < calls.len(),
        calls[k] == Call::<T, E, S, F>::Resolve(v),
        forall|j: int| 0 <= j < k ==> !(#[trigger] calls[j]).settles(),
    ensures
        state_after(calls).status == SwearStatus::<T, E>::Settled(v),
        successes_delivered(calls) == successes_registered(calls).map_values(|cb: S| (cb, v)),
        failures_delivered(calls).len() == 0,
{
    lemma_first_settlement_decides(calls, k);
    lemma_callbacks_accounted(calls);
}

/// When `reject(e)` is the first call that settles a promise, every failure
/// callback registered at any time is made due exactly once, with `e`, and no
/// success callback ever is.
pub proof fn lemma_reject_first<T, E, S, F>(calls: Seq<Call<T, E, S, F>>, k: int, e: E)
    requires
        0 <= k < calls.len(),
        calls[k] == Call::<T, E, S, F>::Reject(e),
        forall|j: int| 0 <= j < k ==> !(#[trigger] calls[j]).settles(),
    ensures
        state_after(calls).status == SwearStatus::<T, E>::Rejected(e),
        failures_delivered(calls) == failures_registered(calls).map_values(|cb: F| (cb, e)),
        successes_delivered(calls).len() == 0,
{
    lemma_first_settlement_decides(calls, k);
    lemma_callbacks_accounted(calls);
}

/// Of two settling calls, in either order, only the first takes effect: after
/// it the promise is no longer pending, and the second leaves the state as it
/// is and makes no callback due.
pub proof fn lemma_settles_once<T, E, S, F>(
    s: SwearState<T, E, S, F>,
    first: Call<T, E, S, F>,
    second: Call<T, E, S, F>,
)
    requires
        first.settles(),
        second.settles(),
    ensures
        !(s.after(first).status is Pending),
        s.after(first).after(second) == s.after(first),
        s.after(first).success_due(second).len() == 0,
        s.after(first).failure_due(second).len() == 0,
{
}

/// Of two `resolve` calls, only the value of the first is ever handed to a
/// callback.
pub proof fn lemma_first_value_wins<T, E, S, F>(
    calls: Seq<Call<T, E, S, F>>,
    i: int,
    j: int,
    a: T,
    b: T,
)
    requires
        0 <= i < j < calls.len(),
        calls[i] == Call::<T, E, S, F>::Resolve(a),
        calls[j] == Call::<T, E, S, F>::Resolve(b),
        forall|k: int| 0 <= k < i ==> !(#[trigger] calls[k]).settles(),
    ensures
        forall|n: int|
            0 <= n < successes_delivered(calls).len() ==> (#[trigger] successes_delivered(
                calls,
            )[n]).1 == a,
        failures_delivered(calls).len() == 0,
{
    lemma_resolve_first(calls, i, a);
}

/// A success callback registered by one of `calls` is among those that
/// `calls` registered.
proof fn lemma_success_registered<T, E, S, F>(calls: Seq<Call<T, E, S, F>>, j: int, cb: S)
    requires
        0 <= j < calls.len(),
        calls[j] == Call::<T, E, S, F>::OnSuccess(cb),
    ensures
        successes_registered(calls).contains(cb),
    decreases calls.len(),
{
    let prev = calls.drop_last();
    if j < calls.len() - 1 {
        assert(prev[j] == calls[j]);
        lemma_success_registered(prev, j, cb);
        let i = choose|i: int|
            0 <= i < successes_registered(prev).len() && successes_registered(prev)[i] == cb;
        assert(successes_registered(calls)[i] == cb);
    } else {
        assert(successes_registered(calls).last() == cb);
    }
}

/// A failure callback registered by one of `calls` is among those that
/// `calls` registered.
proof fn lemma_failure_registered<T, E, S, F>(calls: Seq<Call<T, E, S, F>>, j: int, cb: F)
    requires
        0 <= j < calls.len(),
        calls[j] == Call::<T, E, S, F>::Catch(cb),
    ensures
        failures_registered(calls).contains(cb),
    decreases calls.len(),
{
    let prev = calls.drop_last();
    if j < calls.len() - 1 {
        assert(prev[j] == calls[j]);
        lemma_failure_registered(prev, j, cb);
        let i = choose|i: int|
            0 <= i < failures_registered(prev).len() && failures_registered(prev)[i] == cb;
        assert(failures_registered(calls)[i] == cb);
    } else {
        assert(failures_registered(calls).last() == cb);
    }
}

/// A join wakes if and only if the promise has settled. Once its two
/// callbacks are registered, whenever that happened relative to settlement,
/// nothing has run while the promise is pending; once it has settled to `v`
/// the join's success callback has been made due with `v`, and once it has
/// been rejected with `e` its failure callback has been made due with `e`.
pub proof fn lemma_join_wakes_iff_settled<T, E, S, F>(
    calls: Seq<Call<T, E, S, F>>,
    j: int,
    on_value: S,
    on_error: F,
)
    requires
        0 <= j && j + 1 < calls.len(),
        calls[j] == Call::<T, E, S, F>::OnSuccess(on_value),
        calls[j + 1] == Call::<T, E, S, F>::Catch(on_error),
    ensures
        state_after(calls).status is Pending ==> successes_delivered(calls).len() == 0
            && failures_delivered(calls).len() == 0,
        state_after(calls).status matches SwearStatus::Settled(v) ==> successes_delivered(
            calls,
        ).contains((on_value, v)),
        state_after(calls).status matches SwearStatus::Rejected(e) ==> failures_delivered(
            calls,
        ).contains((on_error, e)),
{
    lemma_callbacks_accounted(calls);
    lemma_success_registered(calls, j, on_value);
    lemma_failure_registered(calls, j + 1, on_error);
    match state_after(calls).status {
        SwearStatus::Settled(v) => {
            let regs = successes_registered(calls);
            let i = choose|i: int| 0 <= i < regs.len() && regs[i] == on_value;
            assert(successes_delivered(calls)[i] == (on_value, v));
        },
        SwearStatus::Rejected(e) => {
            let regs = failures_registered(calls);
            let i = choose|i: int| 0 <= i < regs.len() && regs[i] == on_error;
            assert(failures_delivered(calls)[i] == (on_error, e));
        },
        SwearStatus::Pending => {},
    }
}

} // verus!
