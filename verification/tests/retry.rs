use formula_scanner::llm_api::LlmError;
use formula_scanner::retry::{
    backoff_delay, classify, classify_message, AttemptStep, BackoffDelay, FailureClass,
    RetryDecision, RetryState,
};

fn status_error(status: u16, reason: &str, body: &str) -> LlmError {
    LlmError::Status { status, reason: reason.to_string(), body: body.to_string() }
}

#[test]
fn retryable_statuses_are_retryable() {
    for status in [429u16, 500, 502, 503, 504] {
        assert_eq!(classify(&status_error(status, "Reason", "body")), FailureClass::Retryable);
    }
    for status in [400u16, 401, 403, 404, 501, 505] {
        assert_eq!(classify(&status_error(status, "Reason", "body")), FailureClass::Fatal);
    }
}

#[test]
fn transport_failures_are_retryable() {
    assert_eq!(classify(&LlmError::SendFailed), FailureClass::Retryable);
    assert_eq!(classify(&LlmError::ReadFailed), FailureClass::Fatal);
    for text in ["operation TIMEOUT", "request Timed Out", "Connection Reset by peer", "Service Temporarily Unavailable"] {
        assert_eq!(
            classify(&LlmError::Other { message: text.to_string() }),
            FailureClass::Retryable,
            "{}",
            text
        );
    }
    assert_eq!(classify(&status_error(400, "Bad Request", "upstream timeout")), FailureClass::Retryable);
    assert_eq!(classify(&LlmError::Other { message: "failed to send request".to_string() }), FailureClass::Fatal);
}

#[test]
fn cancellation_goes_before_every_retryable_pattern() {
    assert_eq!(classify(&status_error(499, "<unknown status code>", "")), FailureClass::Cancelled);
    assert_eq!(classify(&status_error(503, "Service Unavailable", "Context Canceled")), FailureClass::Cancelled);
    assert_eq!(classify(&status_error(429, "Too Many Requests", "status 499")), FailureClass::Cancelled);
    assert_eq!(
        classify(&LlmError::Other { message: "Failed to send request: context canceled after timeout".to_string() }),
        FailureClass::Cancelled
    );
}

#[test]
fn classification_reads_the_lowered_text_as_given() {
    assert_eq!(classify_message("TIMEOUT", "timeout"), FailureClass::Retryable);
    assert_eq!(classify_message("TIMEOUT", "TIMEOUT"), FailureClass::Fatal);
    assert_eq!(classify_message("timeout", ""), FailureClass::Fatal);
    assert_eq!(classify_message("status 500", "context canceled"), FailureClass::Cancelled);
    assert_eq!(classify_message("status 500", ""), FailureClass::Retryable);
    assert_eq!(classify_message("Status 500", ""), FailureClass::Fatal);
}

#[test]
fn backoff_is_two_to_the_attempt_plus_jitter() {
    assert_eq!(backoff_delay(1), BackoffDelay { secs: 2, millis: 137 });
    assert_eq!(backoff_delay(2), BackoffDelay { secs: 4, millis: 274 });
    assert_eq!(backoff_delay(3), BackoffDelay { secs: 8, millis: 411 });
    assert_eq!(backoff_delay(8), BackoffDelay { secs: 256, millis: 96 });
    assert_eq!(backoff_delay(0), BackoffDelay { secs: 1, millis: 0 });
    assert_eq!(backoff_delay(63), BackoffDelay { secs: 1u64 << 63, millis: 631 });
    assert_eq!(backoff_delay(5), backoff_delay(5));
}

#[test]
fn retryable_failures_are_retried_up_to_the_limit() {
    let mut state = RetryState::new(3);
    let error = status_error(503, "Service Unavailable", "");
    let mut delays = Vec::new();
    loop {
        assert!(state.may_back_off());
        match state.on_failure(&error) {
            RetryDecision::Retry { delay } => delays.push(delay),
            RetryDecision::GiveUp => break,
        }
    }
    assert_eq!(
        delays,
        vec![
            BackoffDelay { secs: 2, millis: 137 },
            BackoffDelay { secs: 4, millis: 274 },
            BackoffDelay { secs: 8, millis: 411 }
        ]
    );
    assert_eq!(state.attempts, 3);
    assert_eq!(state.on_failure(&error), RetryDecision::GiveUp);
    assert_eq!(state.attempts, 3);
}

#[test]
fn fatal_and_cancelled_failures_are_not_retried() {
    let mut state = RetryState::new(5);
    assert_eq!(state.on_failure(&status_error(404, "Not Found", "")), RetryDecision::GiveUp);
    assert_eq!(state.on_failure(&status_error(499, "", "")), RetryDecision::GiveUp);
    assert_eq!(state.on_failure(&status_error(500, "", "context canceled")), RetryDecision::GiveUp);
    assert_eq!(state.on_failure_class(FailureClass::Cancelled), RetryDecision::GiveUp);
    assert_eq!(state.attempts, 0);
    assert_eq!(
        state.on_failure_class(FailureClass::Retryable),
        RetryDecision::Retry { delay: BackoffDelay { secs: 2, millis: 137 } }
    );
    assert_eq!(state.attempts, 1);
    let mut none = RetryState::new(0);
    assert_eq!(none.on_failure(&LlmError::SendFailed), RetryDecision::GiveUp);
}

#[test]
fn back_off_needs_a_delay_that_fits() {
    let mut state = RetryState::new(100);
    assert!(state.may_back_off());
    state.attempts = 62;
    assert!(state.may_back_off());
    state.attempts = 63;
    assert!(!state.may_back_off());
    state.attempts = 100;
    assert!(state.may_back_off());
}

#[test]
fn a_request_ends_with_its_text_or_its_last_error() {
    let mut state = RetryState::new(2);
    match state.after_attempt(Ok("body".to_string())) {
        AttemptStep::Done { result } => assert_eq!(result.unwrap(), "body"),
        other => panic!("unexpected {:?}", other),
    }
    assert_eq!(state.attempts, 0);

    let mut waits = Vec::new();
    let last = loop {
        match state.after_attempt(Err(status_error(502, "Bad Gateway", "try later"))) {
            AttemptStep::Wait { delay } => waits.push(delay),
            AttemptStep::Done { result } => break result,
        }
    };
    assert_eq!(waits.len(), 2);
    assert_eq!(waits[1], BackoffDelay { secs: 4, millis: 274 });
    match last {
        Err(LlmError::Status { status, reason, body }) => {
            assert_eq!((status, reason.as_str(), body.as_str()), (502, "Bad Gateway", "try later"))
        }
        other => panic!("unexpected {:?}", other),
    }

    let mut state = RetryState::new(2);
    match state.after_attempt(Err(status_error(400, "Bad Request", "no"))) {
        AttemptStep::Done { result } => {
            assert_eq!(result.unwrap_err().message(), "API request failed with status 400 Bad Request: no")
        }
        other => panic!("unexpected {:?}", other),
    }
    assert_eq!(state.attempts, 0);
}
