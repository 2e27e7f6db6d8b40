use std::collections::HashSet;

use deadpool::config::PoolConfig;
use deadpool::errors::{
    apply_timeout, create_outcome, recycle_outcome, PoolError, RecycleError, TimeoutType,
};
use deadpool::pool::{Action, ObjectState, Pool, Status, Taken};

fn status(p: &Pool<u32>) -> (usize, isize) {
    let s: Status = p.status();
    (s.size, s.available)
}

/// Waits, the way a parked acquirer does, until a resource arrives, and
/// recycles it successfully.
fn take_resource(p: &mut Pool<u32>) -> u32 {
    match p.take() {
        Taken::Resource(r) => {
            p.recycle_succeeded();
            r
        }
        Taken::Empty => panic!("queue unexpectedly empty"),
        Taken::Retry(_) => panic!("unexpected tombstone"),
    }
}

#[test]
fn new_pool_is_empty() {
    let p: Pool<u32> = Pool::new(4);
    assert_eq!(status(&p), (0, 0));
    assert_eq!(p.config().max_size, 4);
    assert_eq!(p.config().wait_timeout, None);
}

#[test]
fn from_config_keeps_budgets() {
    let mut c = PoolConfig::new(2);
    c.wait_timeout = Some(10);
    c.create_timeout = Some(5);
    let p: Pool<u32> = Pool::from_config(c);
    assert_eq!(p.config().wait_timeout, Some(10));
    assert_eq!(p.config().create_timeout, Some(5));
    assert_eq!(p.config().recycle_timeout, None);
    assert_eq!(status(&p), (0, 0));
}

#[test]
fn growth_under_demand() {
    let mut p: Pool<u32> = Pool::new(3);
    let mut creates: u32 = 0;
    let mut actions = Vec::new();
    for _ in 0..10 {
        actions.push(p.begin_get());
    }
    let creators = actions.iter().filter(|a| **a == Action::Create).count();
    assert_eq!(creators, 3);
    assert_eq!(status(&p), (3, -7));
    let mut held = Vec::new();
    for _ in 0..creators {
        creates += 1;
        p.create_succeeded();
        held.push(creates);
    }
    let mut waiters = 10 - creators;
    let mut done = 0;
    while let Some(r) = held.pop() {
        p.release(ObjectState::Ready, Some(r));
        done += 1;
        if waiters > 0 {
            held.insert(0, take_resource(&mut p));
            waiters -= 1;
        }
    }
    assert_eq!(done, 10);
    assert_eq!(creates, 3);
    assert_eq!(status(&p), (3, 3));
}

#[test]
fn saturation_then_release() {
    let mut p: Pool<u32> = Pool::new(1);
    assert_eq!(p.begin_get(), Action::Create);
    p.create_succeeded();
    assert_eq!(p.begin_get(), Action::Wait);
    assert_eq!(status(&p), (1, -1));
    assert!(matches!(p.take(), Taken::Empty));
    p.release(ObjectState::Ready, Some(1));
    let r = take_resource(&mut p);
    assert_eq!(r, 1);
    p.release(ObjectState::Ready, Some(r));
    assert_eq!(status(&p), (1, 1));
}

#[test]
fn recycle_rejects_every_second_call() {
    let mut p: Pool<u32> = Pool::new(2);
    let mut creates: u32 = 0;
    let mut recycles: u32 = 0;
    let mut acquire = |p: &mut Pool<u32>| -> u32 {
        let mut action = p.begin_get();
        loop {
            assert!(p.status().size <= 2);
            if action == Action::Create {
                creates += 1;
                p.create_succeeded();
                return creates;
            }
            match p.take() {
                Taken::Resource(r) => {
                    recycles += 1;
                    if recycles % 2 == 0 {
                        action = p.recycle_failed();
                    } else {
                        p.recycle_succeeded();
                        return r;
                    }
                }
                Taken::Retry(a) => action = a,
                Taken::Empty => panic!("nothing to wait for"),
            }
        }
    };
    let r = acquire(&mut p);
    p.release(ObjectState::Ready, Some(r));
    let r = acquire(&mut p);
    p.release(ObjectState::Ready, Some(r));
    assert_eq!(status(&p), (1, 1));
    let r = acquire(&mut p);
    assert_eq!(r, 2);
    assert_eq!(status(&p), (1, 0));
    p.release(ObjectState::Ready, Some(r));
    assert_eq!(status(&p), (1, 1));
}

#[test]
fn create_failure_propagates() {
    let mut p: Pool<u32> = Pool::new(3);
    assert_eq!(p.begin_get(), Action::Create);
    let failed: Option<Result<u32, &str>> = Some(Err("Fail"));
    let r = create_outcome(failed, None);
    assert!(matches!(r, Err(PoolError::Backend("Fail"))));
    p.release(ObjectState::Creating, None);
    assert_eq!(status(&p), (0, 0));
}

#[test]
fn wait_timeout_restores_counters() {
    let mut c = PoolConfig::new(1);
    c.wait_timeout = Some(10);
    let mut p: Pool<u32> = Pool::from_config(c);
    assert_eq!(p.begin_get(), Action::Create);
    p.create_succeeded();
    assert_eq!(p.begin_get(), Action::Wait);
    assert_eq!(status(&p), (1, -1));
    let r = apply_timeout::<Option<u32>, ()>(None, TimeoutType::Wait, p.config().wait_timeout);
    assert!(matches!(r, Err(PoolError::Timeout(TimeoutType::Wait, 10))));
    p.release(ObjectState::New, None);
    assert_eq!(status(&p), (1, 0));
    p.release(ObjectState::Ready, Some(1));
    assert_eq!(status(&p), (1, 1));
}

#[test]
fn cancellation_during_create() {
    let mut p: Pool<u32> = Pool::new(2);
    assert_eq!(p.begin_get(), Action::Create);
    assert_eq!(p.begin_get(), Action::Create);
    assert_eq!(status(&p), (2, 0));
    p.release(ObjectState::Creating, None);
    assert_eq!(status(&p), (1, 0));
    p.create_succeeded();
    assert_eq!(p.count(ObjectState::Ready), 1);
    assert_eq!(status(&p).0, 1);
}

#[test]
fn cancellation_during_recycle_leaves_tombstone() {
    let mut p: Pool<u32> = Pool::new(1);
    assert_eq!(p.begin_get(), Action::Create);
    p.create_succeeded();
    p.release(ObjectState::Ready, Some(1));
    assert_eq!(p.begin_get(), Action::Wait);
    assert!(matches!(p.take(), Taken::Resource(1)));
    // a second acquirer parks meanwhile
    assert_eq!(p.begin_get(), Action::Wait);
    assert_eq!(status(&p), (1, -1));
    p.release(ObjectState::Recycling, Some(1));
    assert_eq!(status(&p), (1, 0));
    // the parked acquirer consumes the tombstone and may now create
    assert!(matches!(p.take(), Taken::Retry(Action::Create)));
    assert_eq!(status(&p), (1, 0));
    p.create_succeeded();
    p.release(ObjectState::Ready, Some(2));
    assert_eq!(status(&p), (1, 1));
}

#[test]
fn returned_resources_leave_in_order() {
    let mut p: Pool<u32> = Pool::new(2);
    p.begin_get();
    p.begin_get();
    p.create_succeeded();
    p.create_succeeded();
    p.begin_get();
    p.begin_get();
    p.release(ObjectState::Ready, Some(10));
    p.release(ObjectState::Ready, Some(20));
    assert_eq!(take_resource(&mut p), 10);
    assert_eq!(take_resource(&mut p), 20);
}

#[test]
fn no_resource_held_twice() {
    let mut p: Pool<u32> = Pool::new(3);
    let mut live: HashSet<u32> = HashSet::new();
    let mut next: u32 = 0;
    for round in 0..20u32 {
        let mut got = Vec::new();
        for _ in 0..3 {
            let r = match p.begin_get() {
                Action::Create => {
                    next += 1;
                    p.create_succeeded();
                    next
                }
                Action::Wait => take_resource(&mut p),
            };
            assert!(live.insert(r));
            got.push(r);
        }
        for r in got {
            live.remove(&r);
            p.release(ObjectState::Ready, Some(r));
        }
        assert!(p.status().size <= 3);
        assert_eq!(status(&p), (3, 3), "round {}", round);
    }
    assert_eq!(next, 3);
}

#[test]
fn conservation_at_quiescence() {
    let mut p: Pool<u32> = Pool::new(3);
    p.begin_get();
    p.create_succeeded();
    p.begin_get();
    p.create_succeeded();
    p.release(ObjectState::Ready, Some(1));
    let (size, available) = status(&p);
    assert_eq!(size, p.count(ObjectState::Ready) + available as usize);
    assert!(available >= 0);
}

#[test]
fn timeout_classification() {
    let c = apply_timeout::<u8, ()>(None, TimeoutType::Create, Some(0));
    assert!(matches!(c, Err(PoolError::Timeout(TimeoutType::Create, 0))));
    let w = apply_timeout::<u8, ()>(None, TimeoutType::Wait, Some(0));
    assert!(matches!(w, Err(PoolError::Timeout(TimeoutType::Wait, 0))));
    let r = recycle_outcome::<()>(None, Some(0));
    assert!(matches!(r, Err(PoolError::Timeout(TimeoutType::Recycle, 0))));
    let ok = apply_timeout::<u8, ()>(Some(5), TimeoutType::Wait, None);
    assert!(matches!(ok, Ok(5)));
    let created = create_outcome::<u8, ()>(None, Some(3));
    assert!(matches!(created, Err(PoolError::Timeout(TimeoutType::Create, 3))));
    let created = create_outcome::<u8, ()>(Some(Ok(9)), Some(3));
    assert!(matches!(created, Ok(9)));
}

#[test]
fn recycle_outcomes() {
    assert!(matches!(recycle_outcome::<()>(Some(Ok(())), None), Ok(true)));
    let msg: Option<Result<(), RecycleError<()>>> =
        Some(Err(RecycleError::Message("stale".to_string())));
    assert!(matches!(recycle_outcome(msg, None), Ok(false)));
    let backend: Option<Result<(), RecycleError<u8>>> = Some(Err(RecycleError::Backend(1)));
    assert!(matches!(recycle_outcome(backend, Some(4)), Ok(false)));
}
