use pingpong::client::{ClientAction, ClientError, ClientEvent};
use pingpong::config::{Model, STANDALONE_EXCHANGES};
use pingpong::elapsed::Elapsed;
use pingpong::harness::{trial_elapsed, Trial, TrialError, Workload};

fn millis(n: u64) -> Elapsed {
    Elapsed::new(n / 1000, ((n % 1000) * 1_000_000) as u32).unwrap()
}

#[test]
fn four_connections_share_a_thousand_exchanges() {
    let workload = Workload::split(1000, 4).unwrap();
    assert_eq!(workload.requested(), 1000);
    assert_eq!(workload.connections(), 4);
    assert_eq!(workload.share(), 250);
    assert_eq!(workload.performed(), 1000);
    assert_eq!(workload.discarded(), 0);
}

#[test]
fn ten_standalone_clients_share_a_million_exchanges() {
    let workload = Workload::split(STANDALONE_EXCHANGES, 10).unwrap();
    assert_eq!(workload.share(), 100_000);
    let mut sum = 0u64;
    for _ in 0..workload.connections() {
        sum += workload.share();
    }
    assert_eq!(sum, 1_000_000 - (1_000_000 % 10));
    assert_eq!(sum, workload.performed());
}

#[test]
fn remainder_of_the_division_is_discarded() {
    let workload = Workload::split(1_000_000, 3).unwrap();
    assert_eq!(workload.share(), 333_333);
    assert_eq!(workload.performed(), 999_999);
    assert_eq!(workload.discarded(), 1);

    let workload = Workload::split(1000, 64).unwrap();
    assert_eq!(workload.share(), 15);
    assert_eq!(workload.performed(), 960);
    assert_eq!(workload.discarded(), 40);
}

#[test]
fn performed_is_share_times_connections_over_a_grid() {
    for connections in 1..=70u32 {
        for requested in 0..=200u64 {
            let workload = Workload::split(requested, connections).unwrap();
            let c = connections as u64;
            assert_eq!(workload.share(), requested / c);
            assert_eq!(workload.performed(), (requested / c) * c);
            assert_eq!(workload.performed() + workload.discarded(), requested);
            assert!(workload.discarded() < c);
        }
    }
}

#[test]
fn fewer_exchanges_than_connections_leave_every_share_empty() {
    let workload = Workload::split(3, 8).unwrap();
    assert_eq!(workload.share(), 0);
    assert_eq!(workload.performed(), 0);
    assert_eq!(workload.discarded(), 3);
}

#[test]
fn split_among_no_connections_is_none() {
    assert!(Workload::split(1000, 0).is_none());
    assert!(Workload::split(0, 0).is_none());
}

#[test]
fn split_at_the_limits() {
    let workload = Workload::split(u64::MAX, u32::MAX).unwrap();
    assert_eq!(workload.share(), u64::MAX / (u32::MAX as u64));
    assert_eq!(workload.performed(), u64::MAX - u64::MAX % (u32::MAX as u64));
    let workload = Workload::split(u64::MAX, 1).unwrap();
    assert_eq!(workload.share(), u64::MAX);
    assert_eq!(workload.performed(), u64::MAX);
}

#[test]
fn worker_of_a_workload_has_the_share() {
    let workload = Workload::split(10, 4).unwrap();
    let mut worker = workload.worker();
    assert_eq!(worker.share(), 2);
    assert_eq!(worker.completed(), 0);
    worker.handle(ClientEvent::Connected);
    worker.handle(ClientEvent::Configured);
    worker.handle(ClientEvent::RequestSent);
    worker.handle(ClientEvent::ResponseReceived);
    worker.handle(ClientEvent::RequestSent);
    assert_eq!(worker.handle(ClientEvent::ResponseReceived), ClientAction::Finish);
}

#[test]
fn trial_has_the_workload_of_its_numbers() {
    let trial = Trial { model: Model::EventLoop, connections: 16, iterations: 5000 };
    let workload = trial.workload().unwrap();
    assert_eq!(workload.requested(), 5000);
    assert_eq!(workload.connections(), 16);
    assert_eq!(workload.share(), 312);
    assert_eq!(workload.performed(), 4992);

    let none = Trial { model: Model::ThreadPerConnection, connections: 0, iterations: 5000 };
    assert!(none.workload().is_none());
}

#[test]
fn trial_result_is_the_mean_of_the_workers() {
    let outcomes = [Ok(millis(100)), Ok(millis(140)), Ok(millis(90)), Ok(millis(110))];
    assert_eq!(trial_elapsed(&outcomes), Ok(millis(110)));
}

#[test]
fn trial_result_of_one_worker_is_its_time() {
    assert_eq!(trial_elapsed(&[Ok(millis(77))]), Ok(millis(77)));
}

#[test]
fn one_failed_worker_fails_the_trial() {
    let outcomes = [Ok(millis(100)), Err(ClientError::Receive), Ok(millis(90))];
    assert_eq!(
        trial_elapsed(&outcomes),
        Err(TrialError::Worker { index: 1, error: ClientError::Receive })
    );
}

#[test]
fn first_failed_worker_is_the_one_reported() {
    let outcomes = [
        Ok(millis(1)),
        Ok(millis(2)),
        Err(ClientError::Connect),
        Err(ClientError::Send),
        Ok(millis(3)),
        Err(ClientError::Configure),
    ];
    assert_eq!(
        trial_elapsed(&outcomes),
        Err(TrialError::Worker { index: 2, error: ClientError::Connect })
    );
    assert_eq!(
        trial_elapsed(&[Err(ClientError::OutOfOrder)]),
        Err(TrialError::Worker { index: 0, error: ClientError::OutOfOrder })
    );
}

#[test]
fn trial_without_workers_has_no_result() {
    assert_eq!(trial_elapsed(&[]), Err(TrialError::NoWorkers));
}

#[test]
fn trial_whose_times_do_not_add_up_has_no_result() {
    let max = Elapsed::new(u64::MAX, 999_999_999).unwrap();
    assert_eq!(trial_elapsed(&[Ok(max), Ok(millis(1))]), Err(TrialError::Overflow));
}

#[test]
fn failure_is_reported_before_overflow() {
    let max = Elapsed::new(u64::MAX, 999_999_999).unwrap();
    assert_eq!(
        trial_elapsed(&[Ok(max), Ok(max), Err(ClientError::Send)]),
        Err(TrialError::Worker { index: 2, error: ClientError::Send })
    );
}
