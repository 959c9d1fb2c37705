use sandbox_backend::challenges::{challenge_key, connection_error, save_error, taken_challenge, ChallengeKind};

#[test]
fn challenge_keys() {
    assert_eq!(challenge_key(ChallengeKind::Registration, "abc"), "webauthn:challenge:abc");
    assert_eq!(challenge_key(ChallengeKind::Authentication, "abc"), "webauthn:auth:abc");
}

#[test]
fn store_messages() {
    assert_eq!(connection_error("refused"), "Redis connection error: refused");
    assert_eq!(save_error(ChallengeKind::Registration, "oom"), "Failed to save challenge: oom");
    assert_eq!(save_error(ChallengeKind::Authentication, "oom"), "Failed to save auth challenge: oom");
}

#[test]
fn taken_challenges() {
    assert_eq!(taken_challenge(Some("{\"state\":1}".to_string())), Ok("{\"state\":1}".to_string()));
    assert_eq!(taken_challenge(None), Err("Invalid or expired challenge".to_string()));
}
