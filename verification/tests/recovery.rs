use external_compositor::recovery::{replay_recovery, Recovery, RecoveryStep, MAX_ATTEMPTS};

#[test]
fn the_first_success_ends_recovery() {
    let recovery: Recovery<u32, &str> = Recovery::new();
    match recovery.attempted(Ok(3)) {
        RecoveryStep::Finished(result) => assert_eq!(result.ok(), Some(3)),
        RecoveryStep::Retry { .. } => panic!("recovery goes on"),
    }
}

#[test]
fn pauses_grow_until_recovery_is_given_up() {
    let mut recovery: Recovery<u32, usize> = Recovery::new();
    let mut pauses = Vec::new();
    let mut attempts = 0;
    let error = loop {
        attempts += 1;
        match recovery.attempted(Err(attempts)) {
            RecoveryStep::Retry {
                delay_ms,
                recovery: next,
            } => {
                pauses.push(delay_ms);
                recovery = next;
            }
            RecoveryStep::Finished(result) => break result.err().unwrap(),
        }
    };
    assert_eq!(attempts, MAX_ATTEMPTS);
    assert_eq!(MAX_ATTEMPTS, 5);
    assert_eq!(pauses, [110, 120, 130, 140]);
    assert_eq!(error.last, 5);
    assert_eq!(
        error.message(),
        "DirectXRenderer failed to recover from lost device after multiple attempts"
    );
}

#[test]
fn a_late_success_counts() {
    let outcomes: Vec<Result<u32, u32>> = vec![Err(1), Err(2), Err(3), Err(4), Ok(5)];
    assert_eq!(replay_recovery(outcomes).unwrap().ok(), Some(5));
}

#[test]
fn what_follows_a_success_does_not_count() {
    let outcomes: Vec<Result<u32, u32>> = vec![Err(1), Ok(2), Err(3), Ok(4), Err(5)];
    assert_eq!(replay_recovery(outcomes).unwrap().ok(), Some(2));
}

#[test]
fn a_success_after_the_last_attempt_comes_too_late() {
    let outcomes: Vec<Result<u32, u32>> = vec![Err(1), Err(2), Err(3), Err(4), Err(5), Ok(6)];
    assert_eq!(replay_recovery(outcomes).unwrap().err().unwrap().last, 5);
}

#[test]
fn a_recovery_that_is_not_over_has_no_result() {
    let outcomes: Vec<Result<u32, u32>> = vec![Err(1), Err(2)];
    assert!(replay_recovery(outcomes).is_none());
    assert!(replay_recovery(Vec::<Result<u32, u32>>::new()).is_none());
}
