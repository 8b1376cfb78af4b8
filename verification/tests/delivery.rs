use mofa_apps::dora_integration::delivery::{
    choose_bridge, prompt_output, PromptBridge, SendAttempts, Verdict, RETRY_DELAY_MS, SEND_ATTEMPTS,
};

#[test]
fn retry_constants() {
    assert_eq!(SEND_ATTEMPTS, 20);
    assert_eq!(RETRY_DELAY_MS, 150);
}

#[test]
fn bridge_names() {
    assert_eq!(PromptBridge::Dedicated.name(), "mofa-prompt-input-tts");
    assert_eq!(PromptBridge::Shared.name(), "mofa-prompt-input");
    assert_eq!(prompt_output(), "prompt");
}

#[test]
fn dedicated_bridge_is_preferred() {
    assert_eq!(choose_bridge(true, true), Some(PromptBridge::Dedicated));
    assert_eq!(choose_bridge(true, false), Some(PromptBridge::Dedicated));
    assert_eq!(choose_bridge(false, true), Some(PromptBridge::Shared));
    assert_eq!(choose_bridge(false, false), None);
}

#[test]
fn first_success_ends_the_sending() {
    let attempts = SendAttempts::new();
    assert_eq!(attempts.failures(), 0);
    assert!(matches!(attempts.record(Ok(())), Verdict::Delivered));
}

#[test]
fn failure_is_followed_by_a_pause_and_another_attempt() {
    match SendAttempts::new().record(Err("not ready".to_string())) {
        Verdict::Retry { delay_ms, attempts } => {
            assert_eq!(delay_ms, 150);
            assert_eq!(attempts.failures(), 1);
            assert!(matches!(attempts.record(Ok(())), Verdict::Delivered));
        }
        other => panic!("expected a retry, got {:?}", other),
    }
}

#[test]
fn twentieth_failure_gives_up_with_the_last_reason() {
    let mut attempts = SendAttempts::new();
    let mut waited: u64 = 0;
    for n in 1..SEND_ATTEMPTS {
        match attempts.record(Err(format!("failure {}", n))) {
            Verdict::Retry { delay_ms, attempts: next } => {
                assert_eq!(next.failures(), n);
                waited += delay_ms;
                attempts = next;
            }
            other => panic!("expected a retry after failure {}, got {:?}", n, other),
        }
    }
    assert_eq!(waited, 2_850);
    assert_eq!(attempts.failures(), 19);
    match attempts.record(Err("failure 20".to_string())) {
        Verdict::Exhausted { reason } => assert_eq!(reason, "failure 20"),
        other => panic!("expected the sending to be given up, got {:?}", other),
    }
}

#[test]
fn success_on_the_last_attempt_still_delivers() {
    let mut attempts = SendAttempts::new();
    for _ in 1..SEND_ATTEMPTS {
        match attempts.record(Err("busy".to_string())) {
            Verdict::Retry { attempts: next, .. } => attempts = next,
            other => panic!("expected a retry, got {:?}", other),
        }
    }
    assert!(matches!(attempts.record(Ok(())), Verdict::Delivered));
}
