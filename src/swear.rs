use vstd::prelude::*;

verus! {

/// Where a promise stands: not settled yet, settled to a value, or rejected
/// with an error. Once it has left `Pending` it never changes again.
pub enum SwearStatus<T, E> {
    Pending,
    Settled(T),
    Rejected(E),
}

/// The values that a promise carries: sent to other threads and copied once
/// for each callback that receives them.
pub trait ThreadSafeClone: Send + Clone + 'static {}

impl<T: Send + Clone + 'static> ThreadSafeClone for T {}

/// A call that changes a promise.
pub enum Call<T, E, S, F> {
    Resolve(T),
    Reject(E),
    OnSuccess(S),
    Catch(F),
}

impl<T, E, S, F> Call<T, E, S, F> {
    /// Whether the call is an attempt to settle the promise.
    pub open spec fn settles(self) -> bool {
        self is Resolve || self is Reject
    }
}

/// What a promise holds, as a value: its status and the callbacks waiting for
/// either outcome, oldest first.
pub struct SwearState<T, E, S, F> {
    pub status: SwearStatus<T, E>,
    pub successes: Seq<S>,
    pub failures: Seq<F>,
}

impl<T, E, S, F> SwearState<T, E, S, F> {
    /// The state of a new promise.
    pub open spec fn initial() -> Self {
        SwearState { status: SwearStatus::Pending, successes: Seq::empty(), failures: Seq::empty() }
    }

    /// A settled promise keeps no callback for the outcome it settled to.
    pub open spec fn wf(self) -> bool {
        &&& self.status is Settled ==> self.successes.len() == 0
        &&& self.status is Rejected ==> self.failures.len() == 0
    }

    /// The state after `call`.
    pub open spec fn after(self, call: Call<T, E, S, F>) -> Self {
        match call {
            Call::Resolve(v) => if self.status is Pending {
                SwearState { status: SwearStatus::Settled(v), successes: Seq::empty(), ..self }
            } else {
                self
            },
            Call::Reject(e) => if self.status is Pending {
                SwearState { status: SwearStatus::Rejected(e), failures: Seq::empty(), ..self }
            } else {
                self
            },
            Call::OnSuccess(cb) => if self.status is Pending {
                SwearState { successes: self.successes.push(cb), ..self }
            } else {
                self
            },
            Call::Catch(cb) => if self.status is Pending {
                SwearState { failures: self.failures.push(cb), ..self }
            } else {
                self
            },
        }
    }

    /// The success callbacks that `call` makes due, each with the value it
    /// receives.
    pub open spec fn success_due(self, call: Call<T, E, S, F>) -> Seq<(S, T)> {
        match call {
            Call::Resolve(v) => if self.status is Pending {
                self.successes.map_values(|cb: S| (cb, v))
            } else {
                Seq::empty()
            },
            Call::OnSuccess(cb) => match self.status {
                SwearStatus::Settled(v) => seq![(cb, v)],
                _ => Seq::empty(),
            },
            _ => Seq::empty(),
        }
    }

    /// The failure callbacks that `call` makes due, each with the error it
    /// receives.
    pub open spec fn failure_due(self, call: Call<T, E, S, F>) -> Seq<(F, E)> {
        match call {
            Call::Reject(e) => if self.status is Pending {
                self.failures.map_values(|cb: F| (cb, e))
            } else {
                Seq::empty()
            },
            Call::Catch(cb) => match self.status {
                SwearStatus::Rejected(e) => seq![(cb, e)],
                _ => Seq::empty(),
            },
            _ => Seq::empty(),
        }
    }
}

/// `got` hands out the callbacks of `due`, in the same order, each with a copy
/// of the outcome that `due` gives it.
pub open spec fn copies_of<C, V: Clone>(got: Seq<(C, V)>, due: Seq<(C, V)>) -> bool {
    &&& got.len() == due.len()
    &&& forall|i: int|
        0 <= i < got.len() ==> #[trigger] got[i].0 == due[i].0 && cloned(due[i].1, got[i].1)
}

/// The shared state of a promise.
///
/// `S` is the type of a callback waiting for the value, `F` that of a callback
/// waiting for the error.
pub struct Swear<T, E, S, F> {
    status: SwearStatus<T, E>,
    then_queue: Vec<S>,
    catch_queue: Vec<F>,
}

impl<T, E, S, F> View for Swear<T, E, S, F> {
    type V = SwearState<T, E, S, F>;

    closed spec fn view(&self) -> SwearState<T, E, S, F> {
        SwearState { status: self.status, successes: self.then_queue@, failures: self.catch_queue@ }
    }
}

impl<T: ThreadSafeClone, E: ThreadSafeClone, S, F> Swear<T, E, S, F> {
    /// A promise that has not settled and has no callbacks waiting.
    pub fn new() -> (r: Self)
        ensures
            r@ == SwearState::<T, E, S, F>::initial(),
    {
        Swear { status: SwearStatus::Pending, then_queue: Vec::new(), catch_queue: Vec::new() }
    }

    /// Settles the promise to `value` if it is still pending, and hands back the
    /// success callbacks that were waiting, in the order they came, each with
    /// its own copy of the value. A promise that has already settled is left as
    /// it is, and nothing is handed back.
    pub fn resolve(&mut self, value: T) -> (r: Vec<(S, T)>)
        ensures
            final(self)@ == old(self)@.after(Call::Resolve(value)),
            copies_of(r@, old(self)@.success_due(Call::Resolve(value))),
    {
        match self.status {
            SwearStatus::Pending => {},
            _ => return Vec::new(),
        }
        let mut waiting: Vec<S> = Vec::new();
        std::mem::swap(&mut waiting, &mut self.then_queue);
        let ghost queued = waiting@;
        let mut due: Vec<(S, T)> = Vec::new();
        for cb in it: waiting
            invariant
                it.seq() == queued,
                due@.len() == it.index(),
                forall|i: int|
                    0 <= i < due@.len() ==> #[trigger] due@[i].0 == queued[i] && cloned(
                        value,
                        due@[i].1,
                    ),
        {
            due.push((cb, value.clone()));
        }
        self.status = SwearStatus::Settled(value);
        proof {
            assert(self@ =~= old(self)@.after(Call::Resolve(value)));
        }
        due
    }

    /// Rejects the promise with `error` if it is still pending, and hands back
    /// the failure callbacks that were waiting, in the order they came, each
    /// with its own copy of the error. A promise that has already settled is
    /// left as it is, and nothing is handed back.
    pub fn reject(&mut self, error: E) -> (r: Vec<(F, E)>)
        ensures
            final(self)@ == old(self)@.after(Call::Reject(error)),
            copies_of(r@, old(self)@.failure_due(Call::Reject(error))),
    {
        match self.status {
            SwearStatus::Pending => {},
            _ => return Vec::new(),
        }
        let mut waiting: Vec<F> = Vec::new();
        std::mem::swap(&mut waiting, &mut self.catch_queue);
        let ghost queued = waiting@;
        let mut due: Vec<(F, E)> = Vec::new();
        for cb in it: waiting
            invariant
                it.seq() == queued,
                due@.len() == it.index(),
                forall|i: int|
                    0 <= i < due@.len() ==> #[trigger] due@[i].0 == queued[i] && cloned(
                        error,
                        due@[i].1,
                    ),
        {
            due.push((cb, error.clone()));
        }
        self.status = SwearStatus::Rejected(error);
        proof {
            assert(self@ =~= old(self)@.after(Call::Reject(error)));
        }
        due
    }

    /// Registers a callback for the value. On a promise that has settled to a
    /// value the callback is due at once and handed back with a copy of it; on
    /// a pending promise it waits in line; on a rejected promise it is dropped,
    /// never to run.
    pub fn on_success(&mut self, cb: S) -> (r: Option<(S, T)>)
        ensures
            final(self)@ == old(self)@.after(Call::OnSuccess(cb)),
            old(self)@.status matches SwearStatus::Settled(v) ==> r matches Some((c, t)) && c == cb
                && cloned(v, t),
            !(old(self)@.status is Settled) ==> r is None,
    {
        match &self.status {
            SwearStatus::Settled(v) => Some((cb, v.clone())),
            SwearStatus::Pending => {
                self.then_queue.push(cb);
                None
            },
            SwearStatus::Rejected(_) => None,
        }
    }

    /// Registers a callback for the error: due at once, with a copy of the
    /// error, on a rejected promise; waiting on a pending one; dropped on one
    /// that has settled to a value.
    pub fn catch(&mut self, cb: F) -> (r: Option<(F, E)>)
        ensures
            final(self)@ == old(self)@.after(Call::Catch(cb)),
            old(self)@.status matches SwearStatus::Rejected(e) ==> r matches Some((c, x)) && c == cb
                && cloned(e, x),
            !(old(self)@.status is Rejected) ==> r is None,
    {
        match &self.status {
            SwearStatus::Rejected(e) => Some((cb, e.clone())),
            SwearStatus::Pending => {
                self.catch_queue.push(cb);
                None
            },
            SwearStatus::Settled(_) => None,
        }
    }

    /// The join's registration: `on_value` goes where `on_success` puts a
    /// callback, then `on_error` where `catch` puts one, exactly as for any
    /// other caller. What comes back is what those two calls hand back: on a
    /// promise that has settled, the one of the two that is due at once, with
    /// a copy of the outcome; on a pending promise, nothing, both now waiting.
    /// The join then waits until one of the two has run.
    pub fn block(&mut self, on_value: S, on_error: F) -> (r: (Option<(S, T)>, Option<(F, E)>))
        ensures
            final(self)@ == old(self)@.after(Call::OnSuccess(on_value)).after(
                Call::Catch(on_error),
            ),
            old(self)@.status matches SwearStatus::Settled(v) ==> r.0 matches Some((c, t)) && c
                == on_value && cloned(v, t),
            !(old(self)@.status is Settled) ==> r.0 is None,
            old(self)@.status matches SwearStatus::Rejected(e) ==> r.1 matches Some((c, x)) && c
                == on_error && cloned(e, x),
            !(old(self)@.status is Rejected) ==> r.1 is None,
    {
        let value_due = self.on_success(on_value);
        let error_due = self.catch(on_error);
        (value_due, error_due)
    }

    /// A snapshot of the outcome: nothing while the promise is pending, else a
    /// copy of the value or of the error.
    pub fn outcome(&self) -> (r: Option<Result<T, E>>)
        ensures
            self@.status is Pending <==> r is None,
            self@.status matches SwearStatus::Settled(v) ==> r matches Some(Ok(t)) && cloned(v, t),
            self@.status matches SwearStatus::Rejected(e) ==> r matches Some(Err(x)) && cloned(e, x),
    {
        match &self.status {
            SwearStatus::Pending => None,
            SwearStatus::Settled(v) => Some(Ok(v.clone())),
            SwearStatus::Rejected(e) => Some(Err(e.clone())),
        }
    }
}

/// The error of the demonstration program: a failure with a message.
#[derive(Debug, Clone)]
pub enum MyError {
    New(String),
}

impl MyError {
    /// The text of the error, as the program prints it.
    pub fn message(&self) -> (r: String)
        ensures
            self matches MyError::New(s) && r@ == s@,
    {
        match self {
            MyError::New(s) => s.clone(),
        }
    }
}

} // verus!
