use std::cell::RefCell;
use std::rc::Rc;

use atomic_batcher::Batcher;
use atomic_batcher::Callback;
use atomic_batcher::ProtocolViolation;

// Deliver a completed batch's result to each of its callbacks, in order, as
// a driver would.
fn deliver(callbacks: Vec<Callback<Box<dyn Fn(Result<(), &'static str>)>>>,
           result: Result<(), &'static str>) {
    for cb in callbacks {
        if let Callback::Call(f) = cb {
            f(result);
        }
    }
}

#[test]
fn run_once() {
    let mut batcher: Batcher<u64, ()> = Batcher::new();
    let batch = batcher.append(vec![1, 2, 3]);
    assert_eq!(batch, Some(vec![1, 2, 3]));
}

#[test]
fn run_with_done() {
    let mut batcher: Batcher<u64, ()> = Batcher::new();
    let batch = batcher.append(vec![1, 2, 3]);
    assert_eq!(batch, Some(vec![1, 2, 3]));
    let completion = batcher.done(Ok::<(), &str>(())).unwrap();
    // nothing was queued, so the run function is not invoked again
    assert_eq!(completion.next_batch, None);
    assert!(!batcher.is_running());
}

#[test]
fn run_with_callback() {
    let mut batcher: Batcher<u64, fn(Result<(), &str>)> = Batcher::new();
    let cb: fn(Result<(), &str>) = |err| {
        if let Err(s) = err {
            assert_eq!(s, "some wrong");
        }
    };
    let batch = batcher.appendcb(vec![1, 2, 3], cb);
    assert_eq!(batch, Some(vec![1, 2, 3]));
    let completion = batcher.done(Ok::<(), &str>(())).unwrap();
    assert_eq!(completion.callbacks.len(), 1);
    for c in completion.callbacks {
        if let Callback::Call(f) = c {
            f(completion.result);
        }
    }
    assert_eq!(completion.next_batch, None);
}

#[test]
fn run_async() {
    let mut batcher: Batcher<u64, ()> = Batcher::new();
    assert_eq!(batcher.append(vec![1, 2, 3]), Some(vec![1, 2, 3]));
    assert_eq!(batcher.append(vec![4, 5, 6]), None);
    assert_eq!(batcher.append(vec![7, 8, 9]), None);
    // completing the first run hands out everything queued meanwhile as one batch
    let completion = batcher.done(Ok::<(), &str>(())).unwrap();
    assert_eq!(completion.next_batch, Some(vec![4, 5, 6, 7, 8, 9]));
}

#[test]
fn chained_then_idle() {
    let mut batcher: Batcher<u64, ()> = Batcher::new();
    assert_eq!(batcher.append(vec![1, 2, 3]), Some(vec![1, 2, 3]));
    assert_eq!(batcher.append(vec![4, 5, 6]), None);
    assert_eq!(batcher.append(vec![7, 8, 9]), None);
    let first = batcher.done(Ok::<(), &str>(())).unwrap();
    assert_eq!(first.next_batch, Some(vec![4, 5, 6, 7, 8, 9]));
    assert!(batcher.is_running());
    let second = batcher.done(Ok::<(), &str>(())).unwrap();
    // nothing was queued during the second run: idle again, no third run
    assert_eq!(second.next_batch, None);
    assert!(!batcher.is_running());
}

#[test]
fn callback_gets_error() {
    let seen: Rc<RefCell<Vec<Result<(), &'static str>>>> = Rc::new(RefCell::new(Vec::new()));
    let sink = Rc::clone(&seen);
    let mut batcher: Batcher<u64, Box<dyn Fn(Result<(), &'static str>)>> = Batcher::new();
    let batch = batcher.appendcb(
        vec![1, 2, 3],
        Box::new(move |r| sink.borrow_mut().push(r)),
    );
    assert_eq!(batch, Some(vec![1, 2, 3]));
    let completion = batcher.done(Err::<(), &str>("x")).unwrap();
    assert_eq!(completion.result, Err("x"));
    assert_eq!(completion.next_batch, None);
    deliver(completion.callbacks, completion.result);
    // the callback ran exactly once, with the failed batch's error
    assert_eq!(*seen.borrow(), vec![Err("x")]);
}

#[test]
fn coalesced_callbacks_notified_in_order() {
    let seen: Rc<RefCell<Vec<(u32, Result<(), &'static str>)>>> =
        Rc::new(RefCell::new(Vec::new()));
    let tag = |id: u32| -> Box<dyn Fn(Result<(), &'static str>)> {
        let sink = Rc::clone(&seen);
        Box::new(move |r| sink.borrow_mut().push((id, r)))
    };
    let mut batcher: Batcher<u64, Box<dyn Fn(Result<(), &'static str>)>> = Batcher::new();
    assert_eq!(batcher.appendcb(vec![1], tag(0)), Some(vec![1]));
    assert_eq!(batcher.appendcb(vec![2, 3], tag(1)), None);
    assert_eq!(batcher.appendcb(vec![4], tag(2)), None);
    let first = batcher.done(Ok::<(), &str>(())).unwrap();
    assert_eq!(first.next_batch, Some(vec![2, 3, 4]));
    deliver(first.callbacks, first.result);
    let second = batcher.done(Err::<(), &str>("late")).unwrap();
    assert_eq!(second.next_batch, None);
    deliver(second.callbacks, second.result);
    // one notification per submission, in submission order, each with the
    // result of the batch that carried its items
    assert_eq!(
        *seen.borrow(),
        vec![(0, Ok(())), (1, Err("late")), (2, Err("late"))]
    );
}

#[test]
fn empty_submission_on_idle_runs_immediately() {
    let mut batcher: Batcher<u64, ()> = Batcher::new();
    let batch = batcher.append(vec![]);
    assert_eq!(batch, Some(vec![]));
    assert!(batcher.is_running());
}

#[test]
fn empty_submission_while_running_forces_batch_boundary() {
    let seen: Rc<RefCell<Vec<Result<(), &'static str>>>> = Rc::new(RefCell::new(Vec::new()));
    let sink = Rc::clone(&seen);
    let mut batcher: Batcher<u64, Box<dyn Fn(Result<(), &'static str>)>> = Batcher::new();
    assert_eq!(batcher.append(vec![7]), Some(vec![7]));
    // an empty submission with a real callback still gets a notification at
    // the next batch boundary: completing chains into an empty run
    let queued = batcher.appendcb(vec![], Box::new(move |r| sink.borrow_mut().push(r)));
    assert_eq!(queued, None);
    let first = batcher.done(Ok::<(), &str>(())).unwrap();
    assert_eq!(first.next_batch, Some(vec![]));
    assert!(batcher.is_running());
    let second = batcher.done(Ok::<(), &str>(())).unwrap();
    assert_eq!(second.next_batch, None);
    deliver(second.callbacks, second.result);
    assert_eq!(*seen.borrow(), vec![Ok(())]);
}

#[test]
fn done_without_batch_in_flight_is_a_violation() {
    let mut batcher: Batcher<u64, ()> = Batcher::new();
    let r = batcher.done(Ok::<(), &str>(()));
    assert_eq!(r.err(), Some(ProtocolViolation));
}

#[test]
fn done_twice_for_one_batch_is_a_violation() {
    let mut batcher: Batcher<u64, ()> = Batcher::new();
    assert_eq!(batcher.append(vec![1]), Some(vec![1]));
    assert!(batcher.done(Ok::<(), &str>(())).is_ok());
    // the batcher went idle: a second completion has no batch to complete
    let again = batcher.done(Ok::<(), &str>(()));
    assert_eq!(again.err(), Some(ProtocolViolation));
}
