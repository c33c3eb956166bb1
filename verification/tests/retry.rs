use lelang_scraper::retry::{retry_decision, RetryDecision, SendOutcome, MAX_ATTEMPTS};

#[test]
fn success_is_delivered_at_once() {
    assert_eq!(retry_decision(0, SendOutcome::Response(200)), RetryDecision::Deliver);
    assert_eq!(retry_decision(3, SendOutcome::Response(304)), RetryDecision::Deliver);
    assert_eq!(retry_decision(0, SendOutcome::Response(600)), RetryDecision::Deliver);
}

#[test]
fn client_errors_are_not_retried() {
    assert_eq!(retry_decision(0, SendOutcome::Response(404)), RetryDecision::Reject);
    assert_eq!(retry_decision(2, SendOutcome::Response(400)), RetryDecision::Reject);
}

#[test]
fn server_errors_and_throttling_are_retried_with_growing_pauses() {
    assert_eq!(
        retry_decision(0, SendOutcome::Response(503)),
        RetryDecision::Wait { attempts: 1, seconds: 2 }
    );
    assert_eq!(
        retry_decision(2, SendOutcome::Response(429)),
        RetryDecision::Wait { attempts: 3, seconds: 6 }
    );
    assert_eq!(
        retry_decision(3, SendOutcome::NetworkError),
        RetryDecision::Wait { attempts: 4, seconds: 8 }
    );
}

#[test]
fn retries_stop_at_the_fifth_sending() {
    assert_eq!(retry_decision(4, SendOutcome::Response(500)), RetryDecision::RejectAfterRetries);
    assert_eq!(retry_decision(4, SendOutcome::NetworkError), RetryDecision::GiveUp);
}

#[test]
fn a_failing_request_is_sent_five_times_and_pauses_twenty_seconds() {
    let mut attempts = 0;
    let mut sendings = 0;
    let mut paused = 0;
    loop {
        sendings += 1;
        match retry_decision(attempts, SendOutcome::NetworkError) {
            RetryDecision::Wait { attempts: a, seconds } => {
                attempts = a;
                paused += seconds;
            }
            other => {
                assert_eq!(other, RetryDecision::GiveUp);
                break;
            }
        }
    }
    assert_eq!(sendings, MAX_ATTEMPTS);
    assert_eq!(paused, 20);
}
