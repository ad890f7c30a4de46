use ethproofs_client::db::{insert_with_retries, DbBlockProofsConfig, RetryStep};

const MS: u64 = 1_000_000;

#[test]
fn database_defaults() {
    let config = DbBlockProofsConfig::default();
    assert_eq!(config.queue_capacity, 10);
    assert_eq!(config.max_connections, 5);
    assert_eq!(config.acquire_timeout_ns, 5_000 * MS as u128);
    assert_eq!(config.max_retries, 5);
    assert_eq!(config.base_backoff_ns, 200 * MS as u128);
}

#[test]
fn pauses_double_up_to_the_limit() {
    let expected = [200, 400, 800, 1_600, 3_200, 5_000, 5_000];
    for (failures, sleep_ms) in expected.iter().enumerate() {
        assert_eq!(
            insert_with_retries(failures, 10, 200 * MS as u128),
            RetryStep::RetryAfter { failures: failures + 1, sleep_ns: *sleep_ms * MS }
        );
    }
    assert_eq!(
        insert_with_retries(100, 1_000, u128::MAX),
        RetryStep::RetryAfter { failures: 101, sleep_ns: 5_000 * MS }
    );
    assert_eq!(
        insert_with_retries(50, 1_000, 0),
        RetryStep::RetryAfter { failures: 51, sleep_ns: 0 }
    );
    assert_eq!(
        insert_with_retries(50, 1_000, 1),
        RetryStep::RetryAfter { failures: 51, sleep_ns: 4_294_967_295 }
    );
}

#[test]
fn gives_up_after_the_retries() {
    assert_eq!(
        insert_with_retries(4, 5, 1),
        RetryStep::RetryAfter { failures: 5, sleep_ns: 16 }
    );
    assert_eq!(insert_with_retries(5, 5, 1), RetryStep::GiveUp);
    assert_eq!(insert_with_retries(0, 0, 1), RetryStep::GiveUp);
}

#[test]
fn a_row_of_failures_ends() {
    let mut failures = 0;
    let mut pauses = 0;
    while let RetryStep::RetryAfter { failures: now, .. } = insert_with_retries(failures, 5, 200) {
        failures = now;
        pauses += 1;
    }
    assert_eq!(pauses, 5);
}
