use social_client::provision::{ProvisionOutcome, Provisioner};
use social_client::simulation::{mean, ClientCreationError};

#[test]
fn batches_are_bounded_by_the_concurrency_limit() {
    let p = Provisioner::new(10, 4);
    assert_eq!(p.next_batch_size(), 4);
    assert_eq!(p.connected(), 0);
}

#[test]
fn last_batch_is_the_remainder() {
    let mut p = Provisioner::new(6, 4);
    let batch: Vec<ProvisionOutcome> = vec![Ok((10, 5)); 4];
    assert!(p.record_batch(&batch));
    assert_eq!(p.next_batch_size(), 2);
    let rest: Vec<ProvisionOutcome> = vec![Ok((20, 10)); 2];
    assert!(p.record_batch(&rest));
    assert_eq!(p.next_batch_size(), 0);
    assert!(p.can_start());
    assert_eq!(p.connected(), 6);
}

#[test]
fn recorded_latencies_feed_the_statistics() {
    let mut p = Provisioner::new(2, 2);
    let batch: Vec<ProvisionOutcome> = vec![Ok((10, 4)), Ok((20, 6))];
    assert!(p.record_batch(&batch));
    assert_eq!(mean(p.whole_conns()), 15);
    assert_eq!(mean(p.client_conns()), 5);
}

#[test]
fn first_failure_aborts_provisioning() {
    // Fail-fast: the third of six attempts fails, so exactly the two
    // earlier sessions are recorded, no further outcome of the batch is
    // taken, and the simulation never starts.
    let mut p = Provisioner::new(6, 6);
    let batch: Vec<ProvisionOutcome> = vec![
        Ok((10, 5)),
        Ok((12, 6)),
        Err(ClientCreationError::Connection),
        Ok((14, 7)),
        Err(ClientCreationError::Transport),
    ];
    assert!(!p.record_batch(&batch));
    assert_eq!(p.connected(), 2);
    assert!(!p.can_start());
    assert!(matches!(*p.failure(), Some(ClientCreationError::Connection)));
    assert_eq!(p.next_batch_size(), 0);
}

#[test]
fn failure_in_the_first_attempt_records_nothing() {
    let mut p = Provisioner::new(3, 1);
    let batch: Vec<ProvisionOutcome> = vec![Err(ClientCreationError::Authentication)];
    assert!(!p.record_batch(&batch));
    assert_eq!(p.connected(), 0);
    assert!(!p.can_start());
    assert!(matches!(*p.failure(), Some(ClientCreationError::Authentication)));
}

#[test]
fn an_incomplete_run_cannot_start() {
    let mut p = Provisioner::new(3, 2);
    let batch: Vec<ProvisionOutcome> = vec![Ok((10, 5)), Ok((11, 5))];
    assert!(p.record_batch(&batch));
    assert!(!p.can_start());
    assert_eq!(p.next_batch_size(), 1);
}
