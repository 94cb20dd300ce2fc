use presence_canary::auth::{authorization_matches, handle_ping, handle_ping_at, PingOutcome};
use presence_canary::store::CanaryState;

fn reasons(state: &CanaryState) -> Vec<String> {
    state.snapshot().into_iter().map(|p| p.reason).collect()
}

#[test]
fn capacity_never_exceeded() {
    let mut state = CanaryState::default();
    for i in 0..20u32 {
        state.record(format!("ping {}", i));
        assert!(state.len() <= 8);
        if i >= 7 {
            assert_eq!(state.len(), 8);
        } else {
            assert_eq!(state.len(), i as usize + 1);
        }
    }
}

#[test]
fn most_recent_first() {
    let mut state = CanaryState::default();
    state.record(String::from("first"));
    state.record(String::from("second"));
    state.record(String::from("third"));
    assert_eq!(reasons(&state), vec!["third", "second", "first"]);
}

#[test]
fn oldest_is_evicted() {
    let mut state = CanaryState::default();
    for i in 0..9u32 {
        state.record(format!("r{}", i));
    }
    let got = reasons(&state);
    assert_eq!(got.len(), 8);
    assert_eq!(got, vec!["r8", "r7", "r6", "r5", "r4", "r3", "r2", "r1"]);
    assert!(!got.contains(&String::from("r0")));
}

#[test]
fn snapshot_does_not_mutate() {
    let mut state = CanaryState::default();
    state.record(String::from("alpha"));
    state.record(String::from("beta"));
    let before = reasons(&state);
    for _ in 0..5 {
        let snap = state.snapshot();
        assert_eq!(snap.len(), 2);
    }
    assert_eq!(reasons(&state), before);
    assert_eq!(state.len(), 2);
}

#[test]
fn exact_credential_matches() {
    assert!(authorization_matches("secret", "Bearer secret"));
}

#[test]
fn credential_deviations_rejected() {
    for bad in [
        "bearer secret",
        "Bearer  secret",
        "Bearersecret",
        "Bearer secre",
        "Bearer secrets",
        " Bearer secret",
        "Bearer secret ",
        "Bearer wrong",
        "",
    ] {
        assert!(!authorization_matches("secret", bad), "accepted {:?}", bad);
    }
}

#[test]
fn ping_with_good_credential_records() {
    let mut state = CanaryState::default();
    let outcome = handle_ping(
        &mut state,
        "secret",
        "Bearer secret",
        Some(String::from("heartbeat")),
    );
    assert_eq!(outcome, PingOutcome::Accepted);
    assert_eq!(outcome.status_code(), 200);
    assert_eq!(outcome.body_text(), "Ok");
    assert_eq!(reasons(&state), vec!["heartbeat"]);
}

#[test]
fn ping_with_bad_credential_leaves_store_alone() {
    let mut state = CanaryState::default();
    let outcome = handle_ping(
        &mut state,
        "secret",
        "Bearer wrong",
        Some(String::from("heartbeat")),
    );
    assert_eq!(outcome, PingOutcome::Unauthorized);
    assert_eq!(outcome.status_code(), 401);
    assert_eq!(outcome.body_text(), "Unauthorized");
    assert_eq!(state.len(), 0);
}

#[test]
fn every_deviation_leaves_store_unchanged() {
    let mut state = CanaryState::default();
    state.record(String::from("kept"));
    for bad in ["bearer secret", "Bearer", "Token secret", ""] {
        let outcome = handle_ping(&mut state, "secret", bad, Some(String::from("new")));
        assert_eq!(outcome, PingOutcome::Unauthorized);
        assert_eq!(reasons(&state), vec!["kept"]);
    }
}

#[test]
fn unreadable_body_is_rejected_without_recording() {
    let mut state = CanaryState::default();
    let outcome = handle_ping(&mut state, "secret", "Bearer secret", None);
    assert_eq!(outcome, PingOutcome::BadBody);
    assert_eq!(outcome.status_code(), 400);
    assert_eq!(outcome.body_text(), "Bad Request");
    assert_eq!(state.len(), 0);
}

#[test]
fn ten_pings_keep_the_last_eight() {
    let mut state = CanaryState::default();
    for i in 0..10u32 {
        let outcome = handle_ping(
            &mut state,
            "secret",
            "Bearer secret",
            Some(format!("r{}", i)),
        );
        assert_eq!(outcome, PingOutcome::Accepted);
    }
    assert_eq!(
        reasons(&state),
        vec!["r9", "r8", "r7", "r6", "r5", "r4", "r3", "r2"]
    );
}

#[test]
fn ping_at_known_instant_is_stamped_with_it() {
    let mut state = CanaryState::default();
    let outcome = handle_ping_at(
        &mut state,
        "secret",
        "Bearer secret",
        Some(String::from("stamped")),
        12_345,
    );
    assert_eq!(outcome, PingOutcome::Accepted);
    let snap = state.snapshot();
    assert_eq!(snap.len(), 1);
    assert_eq!(snap[0].reason, "stamped");
    assert_eq!(snap[0].time_millis, 12_345);
}

#[test]
fn store_stays_well_formed() {
    let mut state = CanaryState::default();
    assert!(state.is_wf());
    for i in 0..12u32 {
        handle_ping(
            &mut state,
            "secret",
            "Bearer secret",
            Some(format!("p{}", i)),
        );
        assert!(state.is_wf());
    }
}
