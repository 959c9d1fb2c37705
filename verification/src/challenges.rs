//! Where WebAuthn ceremony state is kept between its two requests: the
//! key-value store keys of pending challenges, and the messages of the
//! store's failures.

use vstd::prelude::*;

verus! {

broadcast use vstd::string::group_string_axioms;

/// The two ceremonies whose challenges are kept.
#[derive(Debug, Clone, Copy, PartialEq, Eq, Structural)]
pub enum ChallengeKind {
    Registration,
    Authentication,
}

/// Key prefix of a ceremony's challenges.
pub open spec fn challenge_prefix(kind: ChallengeKind) -> Seq<char> {
    match kind {
        ChallengeKind::Registration => "webauthn:challenge:"@,
        ChallengeKind::Authentication => "webauthn:auth:"@,
    }
}

/// The store key of a pending challenge.
pub fn challenge_key(kind: ChallengeKind, challenge_id: &str) -> (r: String)
    ensures
        r@ == challenge_prefix(kind) + challenge_id@,
{
    let mut r = match kind {
        ChallengeKind::Registration => String::from_str("webauthn:challenge:"),
        ChallengeKind::Authentication => String::from_str("webauthn:auth:"),
    };
    r.append(challenge_id);
    r
}

/// The message of a failed connection to the store.
pub fn connection_error(detail: &str) -> (r: String)
    ensures
        r@ == "Redis connection error: "@ + detail@,
{
    let mut r = String::from_str("Redis connection error: ");
    r.append(detail);
    r
}

/// The message of a challenge that could not be saved.
pub fn save_error(kind: ChallengeKind, detail: &str) -> (r: String)
    ensures
        r@ == (match kind {
            ChallengeKind::Registration => "Failed to save challenge: "@,
            ChallengeKind::Authentication => "Failed to save auth challenge: "@,
        }) + detail@,
{
    let mut r = match kind {
        ChallengeKind::Registration => String::from_str("Failed to save challenge: "),
        ChallengeKind::Authentication => String::from_str("Failed to save auth challenge: "),
    };
    r.append(detail);
    r
}

/// What taking a challenge out of the store gives: the saved state, or,
/// when the store gave nothing back (missing, expired or failed), the
/// message `Invalid or expired challenge`.
pub fn taken_challenge(read: Option<String>) -> (r: Result<String, String>)
    ensures
        match read {
            Some(state) => r == Ok::<String, String>(state),
            None => r matches Err(m) && m@ == "Invalid or expired challenge"@,
        },
{
    match read {
        Some(state) => Ok(state),
        None => Err(String::from_str("Invalid or expired challenge")),
    }
}

} // verus!
