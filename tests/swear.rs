use std::sync::{Arc, Mutex};

use swear::{MyError, Swear, SwearStatus};

type OnValue = Box<dyn FnOnce(i32) + Send>;
type OnError = Box<dyn FnOnce(&'static str) + Send>;

/// A callback that records each value it receives, tagged with `tag`.
fn recorder<V: Send + 'static>(log: &Arc<Mutex<Vec<(u32, V)>>>, tag: u32) -> Box<dyn FnOnce(V) + Send> {
    let log = Arc::clone(log);
    Box::new(move |v: V| log.lock().unwrap().push((tag, v)))
}

fn run_all<V>(due: Vec<(Box<dyn FnOnce(V) + Send>, V)>) {
    for (cb, v) in due {
        cb(v);
    }
}

#[test]
fn resolve_then_register_delivers_value_once() {
    let mut p: Swear<i32, &'static str, OnValue, OnError> = Swear::new();
    let successes = Arc::new(Mutex::new(Vec::new()));
    let failures = Arc::new(Mutex::new(Vec::new()));
    run_all(p.resolve(42));
    if let Some((cb, v)) = p.on_success(recorder(&successes, 1)) {
        cb(v);
    }
    assert!(p.catch(recorder(&failures, 2)).is_none());
    assert_eq!(*successes.lock().unwrap(), vec![(1, 42)]);
    assert!(failures.lock().unwrap().is_empty());
}

#[test]
fn reject_then_register_delivers_error_once() {
    let mut p: Swear<i32, &'static str, OnValue, OnError> = Swear::new();
    let failures = Arc::new(Mutex::new(Vec::new()));
    run_all(p.reject("boom"));
    if let Some((cb, e)) = p.catch(recorder(&failures, 1)) {
        cb(e);
    }
    assert_eq!(*failures.lock().unwrap(), vec![(1, "boom")]);
}

#[test]
fn callback_registered_while_pending_waits_for_resolve() {
    let mut p: Swear<i32, &'static str, OnValue, OnError> = Swear::new();
    let successes = Arc::new(Mutex::new(Vec::new()));
    assert!(p.on_success(recorder(&successes, 1)).is_none());
    assert!(successes.lock().unwrap().is_empty());
    assert!(matches!(p.outcome(), None));
    let due = p.resolve(7);
    assert_eq!(due.len(), 1);
    run_all(due);
    assert_eq!(*successes.lock().unwrap(), vec![(1, 7)]);
}

#[test]
fn callback_registered_after_settlement_fires_at_once() {
    let mut p: Swear<i32, &'static str, u32, u32> = Swear::new();
    assert!(p.resolve(1).is_empty());
    let fired = p.on_success(5);
    assert_eq!(fired, Some((5, 1)));
}

#[test]
fn failure_callback_never_runs_on_resolved_promise() {
    let mut p: Swear<i32, &'static str, u32, u32> = Swear::new();
    assert_eq!(p.catch(1), None);
    assert!(p.resolve(3).is_empty());
    assert_eq!(p.catch(2), None);
    assert!(p.reject("late").is_empty());
    assert!(matches!(p.outcome(), Some(Ok(3))));
}

#[test]
fn block_returns_the_error_of_a_rejected_promise() {
    let mut p: Swear<i32, &'static str, u32, u32> = Swear::new();
    assert!(matches!(p.outcome(), None));
    p.reject("x");
    assert!(matches!(p.outcome(), Some(Err("x"))));
}

#[test]
fn resolve_after_reject_has_no_effect() {
    let mut p: Swear<i32, &'static str, u32, u32> = Swear::new();
    p.on_success(1);
    p.catch(2);
    assert_eq!(p.reject("first"), vec![(2, "first")]);
    assert!(p.resolve(9).is_empty());
    assert_eq!(p.on_success(3), None);
    assert!(matches!(p.outcome(), Some(Err("first"))));
}

#[test]
fn reject_after_resolve_has_no_effect() {
    let mut p: Swear<i32, &'static str, u32, u32> = Swear::new();
    p.catch(2);
    assert!(p.resolve(4).is_empty());
    assert!(p.reject("second").is_empty());
    assert_eq!(p.catch(3), None);
    assert_eq!(p.on_success(1), Some((1, 4)));
}

#[test]
fn second_resolve_value_is_never_observed() {
    let mut p: Swear<i32, &'static str, u32, u32> = Swear::new();
    p.on_success(1);
    assert_eq!(p.resolve(10), vec![(1, 10)]);
    assert!(p.resolve(20).is_empty());
    assert_eq!(p.on_success(2), Some((2, 10)));
    assert!(matches!(p.outcome(), Some(Ok(10))));
}

#[test]
fn every_registered_callback_is_delivered_exactly_once() {
    let mut p: Swear<i32, &'static str, u32, u32> = Swear::new();
    for id in 0..5u32 {
        assert_eq!(p.on_success(id), None);
    }
    let due = p.resolve(8);
    assert_eq!(due, vec![(0, 8), (1, 8), (2, 8), (3, 8), (4, 8)]);
    let mut late = Vec::new();
    for id in 5..8u32 {
        late.push(p.on_success(id).unwrap());
    }
    assert_eq!(late, vec![(5, 8), (6, 8), (7, 8)]);
    assert!(p.resolve(8).is_empty());
}

#[test]
fn empty_registry_settles_with_nothing_due() {
    let mut p: Swear<String, String, u32, u32> = Swear::new();
    assert!(p.resolve("v".to_string()).is_empty());
    assert_eq!(p.on_success(1), Some((1, "v".to_string())));
}

#[test]
fn queued_callbacks_each_get_their_own_copy() {
    let mut p: Swear<String, String, u32, u32> = Swear::new();
    p.catch(1);
    p.catch(2);
    let due = p.reject("bad".to_string());
    assert_eq!(due, vec![(1, "bad".to_string()), (2, "bad".to_string())]);
}

#[test]
fn status_variants_are_distinct() {
    let pending: SwearStatus<i32, MyError> = SwearStatus::Pending;
    assert!(matches!(pending, SwearStatus::Pending));
    let settled: SwearStatus<i32, MyError> = SwearStatus::Settled(1);
    assert!(matches!(settled, SwearStatus::Settled(1)));
}

#[test]
fn my_error_message_is_its_text() {
    let e = MyError::New("Random failure".to_owned());
    assert_eq!(e.message(), "Random failure");
    assert!(matches!(e.clone(), MyError::New(s) if s == "Random failure"));
}

#[test]
fn join_registers_through_the_queues_while_pending() {
    let mut p: Swear<i32, &'static str, u32, u32> = Swear::new();
    p.on_success(1);
    assert_eq!(p.block(10, 20), (None, None));
    assert_eq!(p.resolve(6), vec![(1, 6), (10, 6)]);
    assert!(p.reject("no").is_empty());
}

#[test]
fn join_on_rejected_promise_gets_its_error_at_once() {
    let mut p: Swear<i32, &'static str, u32, u32> = Swear::new();
    p.catch(2);
    assert_eq!(p.reject("x"), vec![(2, "x")]);
    assert_eq!(p.block(10, 20), (None, Some((20, "x"))));
}

#[test]
fn join_on_settled_promise_gets_its_value_at_once() {
    let mut p: Swear<i32, &'static str, u32, u32> = Swear::new();
    assert_eq!(p.block(10, 20), (None, None));
    assert_eq!(p.reject("late").len(), 1);
    let mut q: Swear<i32, &'static str, u32, u32> = Swear::new();
    q.resolve(5);
    assert_eq!(q.block(11, 21), (Some((11, 5)), None));
}
