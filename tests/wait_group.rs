use wait_group::counter::{add_to_count, done_on_count, must_block, should_wake};
use wait_group::{CounterOverflow, CounterUnderflow, WaitGroup};

#[test]
fn it_work() {
    let wg = WaitGroup::new();
    let v = vec![1, 2, 3, 4, 5];
    wg.add(v.len()).unwrap();
    for _ in v {
        let wg = wg.clone();
        wg.done().unwrap();
    }
    wg.wait();
    assert_eq!(wg.snapshot(), 0);
}

#[test]
#[should_panic]
fn inner_counter_error() {
    let wg = WaitGroup::new();
    wg.done().unwrap();
}

#[test]
fn done_on_fresh_group_underflows() {
    let wg = WaitGroup::new();
    assert_eq!(wg.done(), Err(CounterUnderflow));
    assert_eq!(wg.done(), Err(CounterUnderflow));
    assert_eq!(wg.snapshot(), 0);
}

#[test]
fn wait_on_fresh_group_returns() {
    let wg = WaitGroup::new();
    assert_eq!(wg.snapshot(), 0);
    wg.wait();
    wg.wait();
}

#[test]
fn five_dones_after_add_five_release() {
    let wg = WaitGroup::new();
    assert_eq!(wg.add(5), Ok(()));
    for i in 0..5 {
        assert_eq!(wg.snapshot(), 5 - i);
        let handle = wg.clone();
        assert_eq!(handle.done(), Ok(()));
    }
    wg.wait();
    assert_eq!(wg.snapshot(), 0);
    assert_eq!(wg.done(), Err(CounterUnderflow));
}

#[test]
fn every_worker_finished_before_wait_returns() {
    let wg = WaitGroup::new();
    let mut finished = vec![false; 4];
    let mut workers = Vec::new();
    for _ in 0..4 {
        wg.add(1).unwrap();
        workers.push(wg.clone());
    }
    assert_eq!(wg.snapshot(), 4);
    for (i, worker) in workers.iter().enumerate() {
        finished[i] = true;
        worker.done().unwrap();
    }
    wg.wait();
    assert!(finished.iter().all(|f| *f));
}

#[test]
fn several_adds_then_matching_dones() {
    let wg = WaitGroup::new();
    let deltas = [3usize, 0, 2, 1];
    for d in deltas {
        assert_eq!(wg.add(d), Ok(()));
    }
    assert_eq!(wg.snapshot(), 6);
    for _ in 0..6 {
        assert_eq!(wg.done(), Ok(()));
    }
    wg.wait();
    assert_eq!(wg.snapshot(), 0);
}

#[test]
fn group_is_reusable_after_a_round() {
    let wg = WaitGroup::new();
    wg.add(2).unwrap();
    wg.done().unwrap();
    wg.done().unwrap();
    wg.wait();
    assert_eq!(wg.add(3), Ok(()));
    assert_eq!(wg.snapshot(), 3);
    for _ in 0..3 {
        assert_eq!(wg.done(), Ok(()));
    }
    wg.wait();
    assert_eq!(wg.snapshot(), 0);
    assert_eq!(wg.done(), Err(CounterUnderflow));
}

#[test]
fn clones_share_the_counter() {
    let wg = WaitGroup::new();
    let wg2 = wg.clone();
    assert_eq!(wg.add(1), Ok(()));
    assert_eq!(wg2.snapshot(), 1);
    assert_eq!(wg2.done(), Ok(()));
    assert_eq!(wg.snapshot(), 0);
    wg.wait();
    assert_eq!(wg.done(), Err(CounterUnderflow));
}

#[test]
fn add_zero_on_idle_group_keeps_it_idle() {
    let wg = WaitGroup::new();
    assert_eq!(wg.add(0), Ok(()));
    assert_eq!(wg.snapshot(), 0);
    wg.wait();
}

#[test]
fn add_past_the_largest_count_fails_and_keeps_count() {
    let wg = WaitGroup::new();
    assert_eq!(wg.add(usize::MAX), Ok(()));
    assert_eq!(wg.add(1), Err(CounterOverflow));
    assert_eq!(wg.snapshot(), usize::MAX);
    assert_eq!(wg.add(0), Ok(()));
    assert_eq!(wg.done(), Ok(()));
    assert_eq!(wg.snapshot(), usize::MAX - 1);
}

#[test]
fn add_to_count_values() {
    assert_eq!(add_to_count(0, 0), Ok(0));
    assert_eq!(add_to_count(2, 3), Ok(5));
    assert_eq!(add_to_count(usize::MAX - 1, 1), Ok(usize::MAX));
    assert_eq!(add_to_count(usize::MAX, 1), Err(CounterOverflow));
    assert_eq!(add_to_count(1, usize::MAX), Err(CounterOverflow));
}

#[test]
fn done_on_count_values() {
    assert_eq!(done_on_count(1), Ok(0));
    assert_eq!(done_on_count(7), Ok(6));
    assert_eq!(done_on_count(usize::MAX), Ok(usize::MAX - 1));
    assert_eq!(done_on_count(0), Err(CounterUnderflow));
}

#[test]
fn wake_and_block_decisions() {
    assert!(should_wake(0));
    assert!(!should_wake(1));
    assert!(!must_block(0));
    assert!(must_block(1));
    assert!(must_block(usize::MAX));
}
