use geostorm_alert_service::connection::{
    after_connect_attempt, ConnectStep, RABBITMQ_CONNECT_ATTEMPTS,
    RABBITMQ_CONNECT_RETRY_DELAY_SECONDS,
};
use geostorm_alert_service::delivery::{settle_delivery, Settlement};
use geostorm_alert_service::processing::ProcessOutcome;

#[test]
fn invalid_message_is_rejected_without_requeue() {
    assert_eq!(settle_delivery(None), Settlement::Reject { requeue: false });
}

#[test]
fn processed_and_duplicate_alerts_are_acknowledged() {
    let processed = ProcessOutcome::Processed { report_path: "r".to_string() };
    assert_eq!(settle_delivery(Some(&processed)), Settlement::Ack { multiple: false });
    assert_eq!(settle_delivery(Some(&ProcessOutcome::Duplicate)), Settlement::Ack { multiple: false });
}

#[test]
fn failed_alert_is_requeued() {
    let failed = ProcessOutcome::Failed { error: "e".to_string() };
    assert_eq!(
        settle_delivery(Some(&failed)),
        Settlement::Nack { multiple: false, requeue: true }
    );
}

#[test]
fn connection_succeeds_on_any_attempt() {
    for attempt in 1..=RABBITMQ_CONNECT_ATTEMPTS {
        assert_eq!(after_connect_attempt(attempt, true), ConnectStep::Connected);
    }
}

#[test]
fn connection_is_tried_twelve_times() {
    let mut attempt = 1;
    let mut made = 0;
    loop {
        made += 1;
        match after_connect_attempt(attempt, false) {
            ConnectStep::Retry { next_attempt, delay_seconds } => {
                assert_eq!(next_attempt, attempt + 1);
                assert_eq!(delay_seconds, 5);
                attempt = next_attempt;
            }
            ConnectStep::GiveUp => break,
            ConnectStep::Connected => panic!("no attempt connected"),
        }
    }
    assert_eq!(made, 12);
    assert_eq!(attempt, RABBITMQ_CONNECT_ATTEMPTS);
    assert_eq!(RABBITMQ_CONNECT_RETRY_DELAY_SECONDS, 5);
}
