use code_engine::broker::{retry_decision, RetryDecision, MAX_RETRIES, RETRY_INTERVAL};

#[test]
fn connected_proceeds() {
    assert_eq!(retry_decision(0, true), RetryDecision::Proceed);
    assert_eq!(retry_decision(MAX_RETRIES, true), RetryDecision::Proceed);
}

#[test]
fn failures_retry_after_the_fixed_interval() {
    assert_eq!(
        retry_decision(0, false),
        RetryDecision::RetryAfterDelay(RETRY_INTERVAL)
    );
    assert_eq!(
        retry_decision(MAX_RETRIES - 1, false),
        RetryDecision::RetryAfterDelay(5)
    );
}

#[test]
fn the_retry_budget_is_bounded() {
    assert_eq!(retry_decision(MAX_RETRIES, false), RetryDecision::GiveUp);
    assert_eq!(retry_decision(MAX_RETRIES + 1, false), RetryDecision::GiveUp);
}
