use hyperliquid::engine::{Exchange, Reply, Run, Verdict};
use hyperliquid::retry::{
    api_error_text, api_failure, backoff_delay, classify, decode_failure, render_status,
    status_or_number, NextStep, OutcomeClass, RequestError, RetryPolicy, SendOutcome,
};

fn unreachable(detail: &str) -> Exchange {
    Exchange::Unreachable { detail: detail.to_string() }
}

fn status(status: u16) -> Exchange {
    Exchange::Replied(Reply { status, decode_error: None, text: None })
}

fn status_with_text(status: u16, text: &str) -> Exchange {
    Exchange::Replied(Reply { status, decode_error: None, text: Some(text.to_string()) })
}

fn undecodable(status: u16, detail: &str) -> Exchange {
    Exchange::Replied(Reply { status, decode_error: Some(detail.to_string()), text: None })
}

fn failure_message(run: &Run) -> String {
    match &run.verdict {
        Verdict::Failed(error) => error.message(),
        other => panic!("expected a failure, got {:?}", other),
    }
}

#[test]
fn success_on_the_first_attempt_needs_no_retry() {
    let run = RetryPolicy::new(3).replay(&vec![status(200)]);
    assert_eq!(run.attempts, 1);
    assert!(run.delays.is_empty());
    assert!(matches!(run.verdict, Verdict::Succeeded));
}

#[test]
fn every_2xx_status_is_decoded() {
    let policy = RetryPolicy::new(3);
    for code in [200u16, 201, 204, 299] {
        assert!(matches!(
            policy.after_send(0, SendOutcome::Answered { status: code }),
            NextStep::Decode
        ));
    }
    for code in [100u16, 199, 300, 301, 400, 500, 0, 65535] {
        assert!(matches!(
            policy.after_send(0, SendOutcome::Answered { status: code }),
            NextStep::ReadError
        ));
    }
}

#[test]
fn recovery_after_transport_failures() {
    // The transport fails twice and then answers; the budget is three retries.
    let script = vec![unreachable("connection refused"), unreachable("timed out"), status(200)];
    let run = RetryPolicy::new(3).replay(&script);
    assert!(matches!(run.verdict, Verdict::Succeeded));
    assert_eq!(run.attempts, 3);
    assert_eq!(run.delays, vec![500, 1000]);
    assert_eq!(run.delays.iter().sum::<u64>(), 500 * ((1 << 2) - 1));
}

#[test]
fn recovery_on_the_last_allowed_attempt() {
    let script = vec![unreachable("a"), unreachable("b"), unreachable("c"), status(200)];
    let run = RetryPolicy::new(3).replay(&script);
    assert!(matches!(run.verdict, Verdict::Succeeded));
    assert_eq!(run.attempts, 4);
    assert_eq!(run.delays, vec![500, 1000, 2000]);
}

#[test]
fn exhaustion_after_transport_failures() {
    let script =
        vec![unreachable("first"), unreachable("second"), unreachable("third"), status(200)];
    let run = RetryPolicy::new(2).replay(&script);
    assert_eq!(run.attempts, 3);
    assert_eq!(run.delays, vec![500, 1000]);
    match &run.verdict {
        Verdict::Failed(RequestError::Transport { retries, detail }) => {
            assert_eq!(*retries, 2);
            assert_eq!(detail, "third");
        },
        other => panic!("expected a transport failure, got {:?}", other),
    }
    let message = failure_message(&run);
    assert_eq!(message, "Request failed after 2 retries: third");
    assert!(message.contains("retries"));
    assert!(message.contains("2"));
}

#[test]
fn exhaustion_for_many_budgets() {
    for budget in 0u32..=12 {
        let script: Vec<Exchange> = (0..=budget).map(|_| unreachable("down")).collect();
        let run = RetryPolicy::new(budget).replay(&script);
        assert_eq!(run.attempts, budget as u64 + 1);
        assert_eq!(run.delays.len(), budget as usize);
        for (attempt, delay) in run.delays.iter().enumerate() {
            assert_eq!(*delay, 500u64 << attempt);
        }
        assert_eq!(failure_message(&run), format!("Request failed after {} retries: down", budget));
    }
}

#[test]
fn no_retries_means_one_attempt_and_no_sleep() {
    let run = RetryPolicy::new(0).replay(&vec![unreachable("down"), status(200)]);
    assert_eq!(run.attempts, 1);
    assert!(run.delays.is_empty());
    assert_eq!(failure_message(&run), "Request failed after 0 retries: down");

    let run = RetryPolicy::new(0).replay(&vec![status(429), status(200)]);
    assert_eq!(run.attempts, 1);
    assert!(run.delays.is_empty());
    assert_eq!(failure_message(&run), "Rate limit exceeded after 0 retries");
}

#[test]
fn rate_limit_is_retried_with_its_own_backoff() {
    let run = RetryPolicy::new(3).replay(&vec![status(429), status(200)]);
    assert!(matches!(run.verdict, Verdict::Succeeded));
    assert_eq!(run.attempts, 2);
    assert_eq!(run.delays, vec![1000]);

    let run = RetryPolicy::new(3).replay(&vec![status(429), status(429), status(200)]);
    assert!(matches!(run.verdict, Verdict::Succeeded));
    assert_eq!(run.attempts, 3);
    assert_eq!(run.delays, vec![1000, 2000]);
}

#[test]
fn rate_limit_exhausts_the_budget() {
    let script = vec![status(429), status(429), status(429), status(200)];
    let run = RetryPolicy::new(2).replay(&script);
    assert_eq!(run.attempts, 3);
    assert_eq!(run.delays, vec![1000, 2000]);
    assert!(matches!(run.verdict, Verdict::Failed(RequestError::RateLimited { retries: 2 })));
    assert_eq!(failure_message(&run), "Rate limit exceeded after 2 retries");
}

#[test]
fn backoff_depends_on_the_attempt_not_on_the_kind_before() {
    // A transport failure, then a rate limit, then a transport failure.
    let script = vec![unreachable("down"), status(429), unreachable("down"), status(200)];
    let run = RetryPolicy::new(5).replay(&script);
    assert!(matches!(run.verdict, Verdict::Succeeded));
    assert_eq!(run.delays, vec![500, 2000, 2000]);
}

#[test]
fn not_found_ends_the_call_at_once() {
    let script = vec![status_with_text(404, "Not Found"), status(200)];
    let run = RetryPolicy::new(3).replay(&script);
    assert_eq!(run.attempts, 1);
    assert!(run.delays.is_empty());
    match &run.verdict {
        Verdict::Failed(RequestError::Api { status, body }) => {
            assert_eq!(*status, 404);
            assert_eq!(body, "Not Found");
        },
        other => panic!("expected an API error, got {:?}", other),
    }
    assert_eq!(failure_message(&run), "API error: 404 Not Found - Not Found");
}

#[test]
fn other_error_statuses_are_never_retried() {
    let cases = [
        (400u16, "Bad Request"),
        (401, "Unauthorized"),
        (403, "Forbidden"),
        (404, "Not Found"),
        (422, "Unprocessable Entity"),
        (500, "Internal Server Error"),
        (502, "Bad Gateway"),
        (503, "Service Unavailable"),
    ];
    for (code, reason) in cases {
        let body = format!("API Error: {}", reason);
        let script = vec![status_with_text(code, &body), status(200)];
        let run = RetryPolicy::new(2).replay(&script);
        assert_eq!(run.attempts, 1, "status {}", code);
        assert!(run.delays.is_empty(), "status {}", code);
        assert_eq!(
            failure_message(&run),
            format!("API error: {} {} - API Error: {}", code, reason, reason)
        );
    }
}

#[test]
fn unreadable_error_body_gets_the_stand_in() {
    let run = RetryPolicy::new(3).replay(&vec![status(500)]);
    assert_eq!(run.attempts, 1);
    assert_eq!(failure_message(&run), "API error: 500 Internal Server Error - Unknown error");
    assert_eq!(api_failure(503, None).message(), "API error: 503 Service Unavailable - Unknown error");
    assert_eq!(
        api_failure(400, Some(String::new())).message(),
        "API error: 400 Bad Request - "
    );
}

#[test]
fn malformed_json_is_a_decode_error_without_retry() {
    let detail =
        serde_json::from_str::<serde_json::Value>("{ not json }").unwrap_err().to_string();
    let script = vec![undecodable(200, &detail), status(200)];
    let run = RetryPolicy::new(3).replay(&script);
    assert_eq!(run.attempts, 1);
    assert!(run.delays.is_empty());
    match &run.verdict {
        Verdict::Failed(RequestError::Decode { detail: seen }) => assert_eq!(seen, &detail),
        other => panic!("expected a decode error, got {:?}", other),
    }
    assert_eq!(failure_message(&run), format!("Failed to parse response: {}", detail));
    assert!(failure_message(&run).contains("parse"));
    assert_eq!(decode_failure("eof".to_string()).message(), "Failed to parse response: eof");
}

#[test]
fn a_decode_error_after_retries_is_still_terminal() {
    let script = vec![unreachable("down"), undecodable(200, "missing field"), status(200)];
    let run = RetryPolicy::new(3).replay(&script);
    assert_eq!(run.attempts, 2);
    assert_eq!(run.delays, vec![500]);
    assert_eq!(failure_message(&run), "Failed to parse response: missing field");
}

#[test]
fn a_script_that_ends_early_leaves_the_run_unfinished() {
    let run = RetryPolicy::new(3).replay(&vec![]);
    assert_eq!(run.attempts, 0);
    assert!(run.delays.is_empty());
    assert!(matches!(run.verdict, Verdict::Unfinished));

    let run = RetryPolicy::new(3).replay(&vec![unreachable("down"), status(429)]);
    assert_eq!(run.attempts, 2);
    assert_eq!(run.delays, vec![500, 2000]);
    assert!(matches!(run.verdict, Verdict::Unfinished));
}

#[test]
fn independent_calls_do_not_share_backoff() {
    // Calls against a transport that always succeeds, replayed side by side
    // with a call that has to back off: none of them sleeps.
    let policy = RetryPolicy::new(3);
    let slow = policy.replay(&vec![unreachable("down"), unreachable("down"), status(200)]);
    assert_eq!(slow.delays, vec![500, 1000]);
    for _ in 0..20 {
        let run = policy.replay(&vec![status(200)]);
        assert!(matches!(run.verdict, Verdict::Succeeded));
        assert_eq!(run.attempts, 1);
        assert!(run.delays.is_empty());
    }
}

#[test]
fn step_by_step_decisions() {
    let policy = RetryPolicy::new(2);
    match policy.after_send(0, SendOutcome::Failed { detail: "down".to_string() }) {
        NextStep::Retry { delay_ms } => assert_eq!(delay_ms, 500),
        other => panic!("expected a retry, got {:?}", other),
    }
    match policy.after_send(1, SendOutcome::Failed { detail: "down".to_string() }) {
        NextStep::Retry { delay_ms } => assert_eq!(delay_ms, 1000),
        other => panic!("expected a retry, got {:?}", other),
    }
    match policy.after_send(2, SendOutcome::Failed { detail: "down".to_string() }) {
        NextStep::Fail(RequestError::Transport { retries, detail }) => {
            assert_eq!(retries, 2);
            assert_eq!(detail, "down");
        },
        other => panic!("expected a failure, got {:?}", other),
    }
    match policy.after_send(1, SendOutcome::Answered { status: 429 }) {
        NextStep::Retry { delay_ms } => assert_eq!(delay_ms, 2000),
        other => panic!("expected a retry, got {:?}", other),
    }
    assert!(matches!(
        policy.after_send(2, SendOutcome::Answered { status: 429 }),
        NextStep::Fail(RequestError::RateLimited { retries: 2 })
    ));
    // An attempt past the budget counts as the last one.
    assert!(matches!(
        policy.after_send(9, SendOutcome::Answered { status: 429 }),
        NextStep::Fail(RequestError::RateLimited { retries: 2 })
    ));
}

#[test]
fn backoff_delays() {
    assert_eq!(backoff_delay(500, 0), Some(500));
    assert_eq!(backoff_delay(500, 1), Some(1000));
    assert_eq!(backoff_delay(500, 3), Some(4000));
    assert_eq!(backoff_delay(1000, 0), Some(1000));
    assert_eq!(backoff_delay(1000, 4), Some(16000));
    assert_eq!(backoff_delay(1000, 54), Some(1000u64 << 54));
    assert_eq!(backoff_delay(1000, 55), None);
    assert_eq!(backoff_delay(500, 55), Some(500u64 << 55));
    assert_eq!(backoff_delay(500, 56), None);
    assert_eq!(backoff_delay(0, 4000000000), Some(0));
    assert_eq!(backoff_delay(1, 63), Some(1u64 << 63));
    assert_eq!(backoff_delay(1, 64), None);
    assert_eq!(backoff_delay(500, u32::MAX), None);
}

#[test]
fn statuses_are_shown_with_their_reason() {
    assert_eq!(render_status(200), "200 OK");
    assert_eq!(render_status(404), "404 Not Found");
    assert_eq!(render_status(429), "429 Too Many Requests");
    assert_eq!(render_status(500), "500 Internal Server Error");
    // A status of three digits without a registered reason.
    assert_eq!(render_status(599), "599 <unknown status code>");
    // Not a status of three digits.
    assert_eq!(render_status(99), "99");
    assert_eq!(render_status(0), "0");
    assert_eq!(render_status(1000), "1000");
}

#[test]
fn outcomes_are_classified() {
    assert_eq!(
        classify(&SendOutcome::Failed { detail: "timed out".to_string() }),
        OutcomeClass::Retryable
    );
    for code in [200u16, 201, 204, 299] {
        assert_eq!(classify(&SendOutcome::Answered { status: code }), OutcomeClass::Success);
    }
    assert_eq!(classify(&SendOutcome::Answered { status: 429 }), OutcomeClass::Retryable);
    for code in [100u16, 199, 300, 400, 401, 403, 404, 422, 428, 430, 500, 502, 503] {
        assert_eq!(classify(&SendOutcome::Answered { status: code }), OutcomeClass::Terminal);
    }
}

#[test]
fn a_step_past_the_reach_of_the_backoff_has_no_answer() {
    let policy = RetryPolicy::new(100);
    let down = || SendOutcome::Failed { detail: "down".to_string() };
    assert!(matches!(
        policy.checked_after_send(55, down()),
        Some(NextStep::Retry { delay_ms }) if delay_ms == 500u64 << 55
    ));
    assert!(policy.checked_after_send(56, down()).is_none());
    assert!(policy.checked_after_send(55, SendOutcome::Answered { status: 429 }).is_none());
    // Decisions that need no delay are always there.
    assert!(matches!(
        policy.checked_after_send(99, SendOutcome::Answered { status: 200 }),
        Some(NextStep::Decode)
    ));
    assert!(matches!(
        policy.checked_after_send(100, down()),
        Some(NextStep::Fail(RequestError::Transport { retries: 100, .. }))
    ));
}

#[test]
fn message_pieces() {
    assert_eq!(status_or_number(404, Some("404 Not Found".to_string())), "404 Not Found");
    assert_eq!(status_or_number(7, None), "7");
    assert_eq!(api_error_text("404 Not Found", "gone"), "API error: 404 Not Found - gone");
    assert_eq!(api_error_text("", ""), "API error:  - ");
}
