use social_client::pool::ClientPool;

#[test]
fn new_pool_is_empty() {
    let mut pool: ClientPool<u64> = ClientPool::new();
    assert_eq!(pool.len(), 0);
    assert!(pool.is_empty());
    assert!(pool.take().is_none());
}

#[test]
fn seeded_pool_holds_the_population() {
    let pool: ClientPool<u64> = ClientPool::from_vec(vec![1, 2, 3]);
    assert_eq!(pool.len(), 3);
    assert!(!pool.is_empty());
}

#[test]
fn take_at_removes_the_chosen_member() {
    let mut pool: ClientPool<u64> = ClientPool::from_vec(vec![10, 20, 30]);
    let taken = pool.take_at(1);
    assert_eq!(taken, 20);
    assert_eq!(pool.len(), 2);
}

#[test]
fn put_returns_a_member() {
    let mut pool: ClientPool<u64> = ClientPool::from_vec(vec![10]);
    let taken = pool.take_at(0);
    assert!(pool.is_empty());
    pool.put(taken);
    assert_eq!(pool.len(), 1);
    assert_eq!(pool.take_at(0), 10);
}

#[test]
fn take_never_returns_the_same_actor_twice_before_a_put() {
    // Mutual exclusion seen from the pool: whatever the random draws,
    // members taken and not yet put back are pairwise distinct.
    for _ in 0..50 {
        let mut pool: ClientPool<u64> = ClientPool::from_vec(vec![0, 1, 2, 3]);
        let a = pool.take().unwrap();
        let b = pool.take().unwrap();
        assert_ne!(a, b);
        let mut taken = vec![a, b];
        while let Some(x) = pool.take() {
            assert!(!taken.contains(&x));
            taken.push(x);
        }
        taken.sort();
        assert_eq!(taken, vec![0, 1, 2, 3]);
    }
}

#[test]
fn take_empties_the_pool_exactly_once_per_member() {
    let mut pool: ClientPool<u64> = ClientPool::from_vec(vec![5, 6]);
    assert!(pool.take().is_some());
    assert!(pool.take().is_some());
    assert!(pool.take().is_none());
    assert!(pool.take().is_none());
}
