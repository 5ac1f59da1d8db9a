use sidecar_supervisor::probe::{
    AttemptOutcome, ProbeNext, ProbePhase, ReadinessProbe, MAX_ATTEMPTS, PROGRESS_EVERY,
    RETRY_INTERVAL_MS,
};

fn failures_then_success(failures: usize) -> Vec<AttemptOutcome> {
    let mut outcomes = vec![AttemptOutcome::TransportFailure; failures];
    outcomes.push(AttemptOutcome::Success);
    outcomes
}

#[test]
fn constants_are_the_documented_ones() {
    assert_eq!(MAX_ATTEMPTS, 30);
    assert_eq!(RETRY_INTERVAL_MS, 500);
    assert_eq!(PROGRESS_EVERY, 5);
}

#[test]
fn new_probe_has_made_no_attempt() {
    let probe = ReadinessProbe::new();
    assert_eq!(probe.attempts(), 0);
    assert_eq!(probe.waited_ms(), 0);
    assert_eq!(probe.phase(), ProbePhase::Polling);
    assert!(!probe.is_ready());
    assert!(!probe.is_finished());
}

#[test]
fn success_on_attempt_k_ends_after_k_attempts() {
    for k in 1..=30usize {
        let mut outcomes = failures_then_success(k - 1);
        outcomes.push(AttemptOutcome::TransportFailure);
        outcomes.push(AttemptOutcome::Success);
        let run = ReadinessProbe::replay(&outcomes);
        assert_eq!(run.probe.attempts() as usize, k);
        assert_eq!(run.probe.waited_ms(), (k as u64 - 1) * 500);
        assert!(run.probe.is_ready());
        assert!(run.probe.is_finished());
        assert_eq!(run.probe.phase(), ProbePhase::Ready);
    }
}

#[test]
fn success_on_first_attempt_waits_nothing() {
    let run = ReadinessProbe::replay(&vec![AttemptOutcome::Success]);
    assert_eq!(run.probe.attempts(), 1);
    assert_eq!(run.probe.waited_ms(), 0);
    assert!(run.probe.is_ready());
    assert_eq!(run.announced, Vec::<u32>::new());
}

#[test]
fn never_success_makes_thirty_attempts() {
    let outcomes = vec![AttemptOutcome::NonSuccessStatus; 30];
    let run = ReadinessProbe::replay(&outcomes);
    assert_eq!(run.probe.attempts(), 30);
    assert_eq!(run.probe.waited_ms(), 15_000);
    assert_eq!(run.probe.phase(), ProbePhase::Exhausted);
    assert!(!run.probe.is_ready());
    assert!(run.probe.is_finished());
}

#[test]
fn outcomes_past_the_budget_are_ignored() {
    let mut outcomes = vec![AttemptOutcome::TransportFailure; 30];
    outcomes.push(AttemptOutcome::Success);
    let run = ReadinessProbe::replay(&outcomes);
    assert_eq!(run.probe.attempts(), 30);
    assert_eq!(run.probe.waited_ms(), 15_000);
    assert_eq!(run.probe.phase(), ProbePhase::Exhausted);
}

#[test]
fn four_failures_then_success_announces_attempt_one_only() {
    let mut probe = ReadinessProbe::new();
    let mut announced: Vec<u32> = Vec::new();
    let outcomes = [
        AttemptOutcome::TransportFailure,
        AttemptOutcome::TransportFailure,
        AttemptOutcome::NonSuccessStatus,
        AttemptOutcome::TransportFailure,
        AttemptOutcome::Success,
    ];
    let mut last = None;
    for outcome in outcomes {
        let step = probe.record(outcome).unwrap();
        if step.announce {
            announced.push(step.attempt.index);
        }
        last = Some(step);
    }
    assert_eq!(announced, vec![1]);
    let last = last.unwrap();
    assert_eq!(last.attempt.index, 5);
    assert_eq!(last.attempt.outcome, AttemptOutcome::Success);
    assert_eq!(last.attempt.at_ms, 2000);
    assert_eq!(last.next, ProbeNext::Ready);
    assert!(probe.is_ready());
    assert_eq!(probe.attempts(), 5);
    assert_eq!(probe.waited_ms(), 2000);
    assert_eq!(probe.record(AttemptOutcome::TransportFailure), None);
    assert_eq!(probe.attempts(), 5);
    assert_eq!(probe.waited_ms(), 2000);
    assert!(probe.is_ready());
}

#[test]
fn replay_reports_what_was_announced() {
    let run = ReadinessProbe::replay(&failures_then_success(4));
    assert_eq!(run.announced, vec![1]);
    let run = ReadinessProbe::replay(&failures_then_success(5));
    assert_eq!(run.announced, vec![1]);
    assert_eq!(run.probe.attempts(), 6);
    assert_eq!(run.probe.waited_ms(), 2500);
    let run = ReadinessProbe::replay(&failures_then_success(6));
    assert_eq!(run.announced, vec![1, 6]);
    assert_eq!(run.probe.attempts(), 7);
    assert_eq!(run.probe.waited_ms(), 3000);
}

#[test]
fn progress_is_announced_every_fifth_attempt() {
    let run = ReadinessProbe::replay(&vec![AttemptOutcome::TransportFailure; 30]);
    assert_eq!(run.announced, vec![1, 6, 11, 16, 21, 26]);
}

#[test]
fn a_success_on_a_cadence_boundary_is_not_announced() {
    let run = ReadinessProbe::replay(&failures_then_success(10));
    assert_eq!(run.announced, vec![1, 6]);
    assert_eq!(run.probe.attempts(), 11);
}

#[test]
fn each_failure_asks_for_one_pause() {
    let mut probe = ReadinessProbe::new();
    for n in 1..=29u32 {
        let step = probe.record(AttemptOutcome::TransportFailure).unwrap();
        assert_eq!(step.attempt.index, n);
        assert_eq!(step.attempt.at_ms, (n as u64 - 1) * 500);
        assert_eq!(step.next, ProbeNext::RetryAfter(500));
        assert_eq!(step.announce, (n - 1) % 5 == 0);
        assert_eq!(probe.phase(), ProbePhase::Polling);
    }
    let step = probe.record(AttemptOutcome::NonSuccessStatus).unwrap();
    assert_eq!(step.attempt.index, 30);
    assert_eq!(step.next, ProbeNext::GiveUpAfter(500));
    assert!(!step.announce);
    assert_eq!(probe.phase(), ProbePhase::Exhausted);
    assert_eq!(probe.waited_ms(), 15_000);
    assert_eq!(probe.record(AttemptOutcome::Success), None);
    assert_eq!(probe.phase(), ProbePhase::Exhausted);
    assert_eq!(probe.attempts(), 30);
}

#[test]
fn success_on_the_last_attempt_is_ready() {
    let run = ReadinessProbe::replay(&failures_then_success(29));
    assert_eq!(run.probe.attempts(), 30);
    assert_eq!(run.probe.waited_ms(), 14_500);
    assert_eq!(run.probe.phase(), ProbePhase::Ready);
}

#[test]
fn too_few_outcomes_leave_the_probe_polling() {
    let run = ReadinessProbe::replay(&vec![AttemptOutcome::TransportFailure; 3]);
    assert_eq!(run.probe.attempts(), 3);
    assert_eq!(run.probe.waited_ms(), 1500);
    assert_eq!(run.probe.phase(), ProbePhase::Polling);
    let run = ReadinessProbe::replay(&Vec::new());
    assert_eq!(run.probe.attempts(), 0);
    assert_eq!(run.probe.phase(), ProbePhase::Polling);
}
