//! Properties that relate the callback's decisions to the session lifecycle.
use vstd::prelude::*;
use crate::callback::{accepts, verdict_text};
use crate::policy::{ClientError, Decision};
use crate::session::{SessionState, STATUS_OK, negotiation_outcome};

verus! {

/// A decision with `allow: true` is accepted, and a handshake that then
/// succeeds with no other verdict reaches the established state.
pub proof fn lemma_allow_establishes(d: Decision)
    requires
        d.allow,
    ensures
        accepts(Ok::<Decision, ClientError>(d)),
        forall|required: bool|
            negotiation_outcome(required, accepts(Ok::<Decision, ClientError>(d)), false, STATUS_OK)
                == SessionState::Established,
{
}

/// A decision with `allow: false` is rejected with a non-empty diagnostic
/// that ends with the engine's own diagnostic text, and the handshake cannot
/// then be established whatever else happened.
pub proof fn lemma_deny_rejects(d: Decision, required: bool, accepted: bool, status: i32)
    requires
        !d.allow,
    ensures
        !accepts(Ok::<Decision, ClientError>(d)),
        verdict_text(Ok::<Decision, ClientError>(d)).len() > 0,
        verdict_text(Ok::<Decision, ClientError>(d)).len() >= d.diagnostic@.len(),
        verdict_text(Ok::<Decision, ClientError>(d)).subrange(
            verdict_text(Ok::<Decision, ClientError>(d)).len() - d.diagnostic@.len(),
            verdict_text(Ok::<Decision, ClientError>(d)).len() as int,
        ) == d.diagnostic@,
        negotiation_outcome(required, accepted, true, status) == SessionState::Rejected,
{
    reveal_strlit("decision is false; parseInfo: ");
    let t = verdict_text(Ok::<Decision, ClientError>(d));
    let p = "decision is false; parseInfo: "@;
    assert(t == p + d.diagnostic@);
    assert(t.subrange(p.len() as int, t.len() as int) =~= d.diagnostic@);
}

/// No client failure is ever accepted: a malformed response or an engine
/// failure rejects.
pub proof fn lemma_failure_never_accepts(e: ClientError)
    ensures
        !accepts(Err::<Decision, ClientError>(e)),
        verdict_text(Err::<Decision, ClientError>(e)).len() > 0,
{
    reveal_strlit("malformed decision document");
    reveal_strlit("make_decision error: ");
}

/// A session is established only after a successful handshake with no
/// reject, and, where the peer must present evidence, after an accept.
pub proof fn lemma_established_needs_accept(required: bool, accepted: bool, refused: bool, status: i32)
    requires
        negotiation_outcome(required, accepted, refused, status) == SessionState::Established,
    ensures
        required ==> accepted,
        !refused,
        status == STATUS_OK,
{
}

} // verus!
