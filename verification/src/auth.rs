//! The ingestion decision: check the bearer credential, then commit the
//! reported reason to the store.

use vstd::prelude::*;
use vstd::string::StringExecFns;

use crate::clock::{now_millis, valid_time};
use crate::store::{recorded, CanaryState, PingModel};

verus! {

/// The exact credential an ingestion request must carry: the word
/// `Bearer`, one space, and the configured token.
pub open spec fn expected_header(token: Seq<char>) -> Seq<char> {
    "Bearer "@ + token
}

/// True exactly when the supplied authorization value equals `"Bearer "`
/// followed by the token, character for character.
pub fn authorization_matches(token: &str, authorization: &str) -> (r: bool)
    ensures
        r == (authorization@ == expected_header(token@)),
{
    let mut expected = String::from_str("Bearer ");
    expected.append(token);
    let given = String::from_str(authorization);
    given == expected
}

/// What an ingestion request came to.
#[derive(Clone, Copy, Debug, PartialEq, Eq, Structural)]
pub enum PingOutcome {
    /// The credential matched and the body was readable text: one ping
    /// recorded.
    Accepted,
    /// The credential did not match: nothing recorded.
    Unauthorized,
    /// The credential matched but the body was not readable text: nothing
    /// recorded.
    BadBody,
}

/// The HTTP status code that answers each outcome.
pub open spec fn outcome_status(o: PingOutcome) -> int {
    match o {
        PingOutcome::Accepted => 200,
        PingOutcome::Unauthorized => 401,
        PingOutcome::BadBody => 400,
    }
}

/// The response body that answers each outcome.
pub open spec fn outcome_body(o: PingOutcome) -> Seq<char> {
    match o {
        PingOutcome::Accepted => "Ok"@,
        PingOutcome::Unauthorized => "Unauthorized"@,
        PingOutcome::BadBody => "Bad Request"@,
    }
}

impl PingOutcome {
    /// The HTTP status code of this outcome.
    pub fn status_code(&self) -> (c: u16)
        ensures
            c as int == outcome_status(*self),
    {
        match self {
            PingOutcome::Accepted => 200,
            PingOutcome::Unauthorized => 401,
            PingOutcome::BadBody => 400,
        }
    }

    /// The response body of this outcome.
    pub fn body_text(&self) -> (r: &'static str)
        ensures
            r@ == outcome_body(*self),
    {
        match self {
            PingOutcome::Accepted => "Ok",
            PingOutcome::Unauthorized => "Unauthorized",
            PingOutcome::BadBody => "Bad Request",
        }
    }
}

/// Decide one ingestion request at a known instant: a ping is recorded if
/// and only if the credential matches and the body decoded (`body` holds
/// the decoded reason, `None` where decoding failed); otherwise the store
/// is left exactly as it was.
pub fn handle_ping_at(
    state: &mut CanaryState,
    token: &str,
    authorization: &str,
    body: Option<String>,
    at_millis: i64,
) -> (r: PingOutcome)
    requires
        valid_time(at_millis as int),
    ensures
        authorization@ != expected_header(token@) ==> r == PingOutcome::Unauthorized && *final(state) == *old(state),
        authorization@ == expected_header(token@) && body is None ==> r == PingOutcome::BadBody
            && *final(state) == *old(state),
        authorization@ == expected_header(token@) && body is Some ==> r
            == PingOutcome::Accepted && final(state)@ == recorded(
            old(state)@,
            PingModel { reason: (body->Some_0)@, time: at_millis as int },
        ),
        old(state).wf() ==> final(state).wf(),
{
    if !authorization_matches(token, authorization) {
        PingOutcome::Unauthorized
    } else {
        match body {
            None => PingOutcome::BadBody,
            Some(reason) => {
                state.record_at(reason, at_millis);
                PingOutcome::Accepted
            },
        }
    }
}

/// Handle one ingestion request at the current instant: the store gains
/// exactly one ping, stamped with the current time, if and only if the
/// credential matches and the body decoded; otherwise it is left exactly
/// as it was.
pub fn handle_ping(
    state: &mut CanaryState,
    token: &str,
    authorization: &str,
    body: Option<String>,
) -> (r: PingOutcome)
    ensures
        authorization@ != expected_header(token@) ==> r == PingOutcome::Unauthorized && *final(state) == *old(state),
        authorization@ == expected_header(token@) && body is None ==> r == PingOutcome::BadBody
            && *final(state) == *old(state),
        authorization@ == expected_header(token@) && body is Some ==> r
            == PingOutcome::Accepted && exists|t: int|
            valid_time(t) && final(state)@ == recorded(
                old(state)@,
                PingModel { reason: (body->Some_0)@, time: t },
            ),
        old(state).wf() ==> final(state).wf(),
{
    let t = now_millis();
    let r = handle_ping_at(state, token, authorization, body, t);
    proof {
        if authorization@ == expected_header(token@) && body is Some {
            let reason = body->Some_0;
            assert(valid_time(t as int) && state@ == recorded(
                old(state)@,
                PingModel { reason: reason@, time: t as int },
            ));
        }
    }
    r
}

} // verus!
