use social_client::pool::ClientPool;
use social_client::simulation::{
    drain, worker_poll, worker_poll_at, Simulation, WorkerStep, WorkerTracker,
};

#[test]
fn tracker_starts_with_every_worker_id() {
    let tracker = WorkerTracker::new(4);
    assert_eq!(tracker.remaining(), 4);
    assert!(!tracker.all_done());
}

#[test]
fn tracker_removes_each_reported_worker_once() {
    let mut tracker = WorkerTracker::new(3);
    assert!(tracker.mark_done(1));
    assert_eq!(tracker.remaining(), 2);
    assert!(!tracker.mark_done(1));
    assert_eq!(tracker.remaining(), 2);
    assert!(tracker.mark_done(0));
    assert!(tracker.mark_done(2));
    assert!(tracker.all_done());
}

#[test]
fn tracker_ignores_an_unknown_worker() {
    let mut tracker = WorkerTracker::new(2);
    assert!(!tracker.mark_done(7));
    assert_eq!(tracker.remaining(), 2);
}

#[test]
fn setup_spawns_p_workers_over_n_actors() {
    // For all N and P with 1 <= P <= N: exactly P workers are tracked and
    // the pool starts with exactly N actors.
    for n in 1u64..6 {
        for p in 1u8..=(n as u8) {
            let actors: Vec<u64> = (0..n).collect();
            let (pool, tracker) = Simulation::setup(actors, p);
            assert_eq!(pool.len(), n as usize);
            assert_eq!(tracker.remaining(), p as usize);
        }
    }
}

#[test]
fn worker_acts_before_the_deadline_and_returns_the_actor() {
    let mut pool: ClientPool<u64> = ClientPool::from_vec(vec![7, 9]);
    match worker_poll_at(&mut pool, false, 0) {
        WorkerStep::Act(actor) => {
            assert_eq!(actor, 7);
            assert_eq!(pool.len(), 1);
            // the behavior ran; the actor comes back
            pool.put(actor);
            assert_eq!(pool.len(), 2);
        }
        _ => panic!("expected an acting step"),
    }
}

#[test]
fn worker_drains_past_the_deadline() {
    let mut pool: ClientPool<u64> = ClientPool::from_vec(vec![7, 9]);
    assert!(matches!(worker_poll_at(&mut pool, true, 1), WorkerStep::Dropped));
    assert_eq!(pool.len(), 1);
}

#[test]
fn worker_terminates_on_an_empty_pool() {
    let mut pool: ClientPool<u64> = ClientPool::new();
    assert!(matches!(worker_poll_at(&mut pool, true, 0), WorkerStep::Terminated));
    assert!(matches!(worker_poll(&mut pool, false), WorkerStep::Terminated));
}

#[test]
fn expired_run_drains_four_actors_across_two_workers() {
    // N = 4, P = 2, duration already expired at the start: each poll drops
    // one actor; after four drains split across the two workers the pool
    // is empty and both workers terminate; no worker stays outstanding.
    let actors: Vec<u64> = vec![0, 1, 2, 3];
    let (mut pool, mut tracker) = Simulation::setup(actors, 2);
    let mut drains = [0usize; 2];
    let mut running = [true; 2];
    let mut turn = 0;
    while running[0] || running[1] {
        let worker_id = (turn % 2) as usize;
        turn += 1;
        if !running[worker_id] {
            continue;
        }
        match worker_poll(&mut pool, true) {
            WorkerStep::Dropped => drains[worker_id] += 1,
            WorkerStep::Terminated => {
                assert!(tracker.mark_done(worker_id as u8));
                running[worker_id] = false;
            }
            WorkerStep::Act(_) => panic!("no worker may act past the deadline"),
        }
    }
    assert_eq!(drains[0] + drains[1], 4);
    assert!(pool.is_empty());
    assert!(tracker.all_done());
}

#[test]
fn single_actor_run_leaves_the_second_worker_idle() {
    // N = 1, P = 2: one worker obtains the single actor and cycles it;
    // the other observes an empty pool on its first take and terminates
    // without ever acting.
    let actors: Vec<u64> = vec![42];
    let (mut pool, mut tracker) = Simulation::setup(actors, 2);

    // worker 0 takes the single actor
    let held = match worker_poll(&mut pool, false) {
        WorkerStep::Act(actor) => actor,
        _ => panic!("worker 0 should obtain the single actor"),
    };
    assert_eq!(held, 42);

    // worker 1 polls while the actor is held: the pool is empty, so it
    // terminates without acting
    assert!(matches!(worker_poll(&mut pool, false), WorkerStep::Terminated));
    assert!(tracker.mark_done(1));

    // worker 0 keeps cycling the actor through act and put
    pool.put(held);
    for _ in 0..3 {
        match worker_poll(&mut pool, false) {
            WorkerStep::Act(actor) => pool.put(actor),
            _ => panic!("worker 0 should keep acting before the deadline"),
        }
    }

    // the deadline passes: worker 0 drains the actor, then terminates
    assert!(matches!(worker_poll(&mut pool, true), WorkerStep::Dropped));
    assert!(matches!(worker_poll(&mut pool, true), WorkerStep::Terminated));
    assert!(tracker.mark_done(0));
    assert!(tracker.all_done());
}

#[test]
fn drain_empties_the_pool_one_actor_at_a_time() {
    let mut pool: ClientPool<u64> = ClientPool::from_vec(vec![1, 2, 3, 4, 5]);
    assert_eq!(drain(&mut pool), 5);
    assert!(pool.is_empty());
    assert_eq!(drain(&mut pool), 0);
}

#[test]
fn live_population_never_grows() {
    // pool + held = actors never dropped, and the sum only shrinks
    let actors: Vec<u64> = vec![0, 1, 2];
    let (mut pool, _tracker) = Simulation::setup(actors, 1);
    let mut dropped = 0usize;
    let mut held = 0usize;
    let mut live = pool.len() + held;
    for round in 0..20 {
        let deadline_passed = round >= 10;
        match worker_poll(&mut pool, deadline_passed) {
            WorkerStep::Act(actor) => {
                held += 1;
                assert_eq!(pool.len() + held + dropped, 3);
                pool.put(actor);
                held -= 1;
            }
            WorkerStep::Dropped => dropped += 1,
            WorkerStep::Terminated => break,
        }
        let now = pool.len() + held;
        assert!(now <= live);
        live = now;
        assert_eq!(pool.len() + held + dropped, 3);
    }
    assert_eq!(dropped, 3);
}
